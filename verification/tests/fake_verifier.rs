use send_contact_form_message::fake_friendlycaptcha::{FakeFriendlyCaptcha, FakeVerifierReply};

const SITEKEY: &str = "arbitrary sitekey";
const SECRET: &str = "arbitrary secret";

fn verdict(reply: FakeVerifierReply) -> (u16, bool, Vec<String>) {
    match reply {
        FakeVerifierReply::Verdict {
            status,
            success,
            errors,
        } => (status, success, errors),
        FakeVerifierReply::Unparseable { .. } => panic!("expected a verdict"),
    }
}

#[test]
fn accepts_matching_credentials_and_any_solution() {
    let fake = FakeFriendlyCaptcha::new(SITEKEY, SECRET);

    let (status, success, errors) = verdict(fake.respond("anything", SECRET, SITEKEY));

    assert_eq!(status, 200);
    assert!(success);
    assert!(errors.is_empty());
}

#[test]
fn accepts_the_required_solution() {
    let fake = FakeFriendlyCaptcha::new(SITEKEY, SECRET).require_solution("correct");

    let (status, success, _) = verdict(fake.respond("correct", SECRET, SITEKEY));

    assert_eq!(status, 200);
    assert!(success);
}

#[test]
fn rejects_a_wrong_solution() {
    let fake = FakeFriendlyCaptcha::new(SITEKEY, SECRET).require_solution("correct");

    let (status, success, errors) = verdict(fake.respond("incorrect", SECRET, SITEKEY));

    assert_eq!(status, 200);
    assert!(!success);
    assert_eq!(errors, vec!["solution_invalid".to_string()]);
}

#[test]
fn rejects_a_wrong_sitekey_as_bad_request() {
    let fake = FakeFriendlyCaptcha::new("A different sitekey", SECRET);

    let (status, success, errors) = verdict(fake.respond("anything", SECRET, SITEKEY));

    assert_eq!(status, 400);
    assert!(!success);
    assert_eq!(errors, vec!["bad_request".to_string()]);
}

#[test]
fn rejects_a_wrong_secret_as_unauthorized() {
    let fake = FakeFriendlyCaptcha::new(SITEKEY, "A different secret");

    let (status, success, errors) = verdict(fake.respond("anything", SECRET, SITEKEY));

    assert_eq!(status, 401);
    assert!(!success);
    assert_eq!(errors, vec!["secret_invalid".to_string()]);
}

#[test]
fn answers_unparseably_when_asked_to() {
    let fake = FakeFriendlyCaptcha::new(SITEKEY, SECRET).return_invalid_response();

    match fake.respond("anything", SECRET, SITEKEY) {
        FakeVerifierReply::Unparseable { status, body } => {
            assert_eq!(status, 200);
            assert_eq!(body, "Invalid response");
        }
        _ => panic!("expected an unparseable reply"),
    }
}

#[test]
fn reports_solution_timeout_when_asked_to() {
    let fake = FakeFriendlyCaptcha::new(SITEKEY, SECRET).return_solution_timeout();

    let (status, success, errors) = verdict(fake.respond("anything", SECRET, SITEKEY));

    assert_eq!(status, 200);
    assert!(!success);
    assert_eq!(errors, vec!["solution_timeout_or_duplicate".to_string()]);
}

#[test]
fn names_its_endpoint() {
    assert_eq!(
        FakeFriendlyCaptcha::verify_url(),
        "http://172.17.0.1:5283/verify"
    );
}

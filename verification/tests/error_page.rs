use send_contact_form_message::error_page::{render_error_page, render_paragraphs};

const MALICIOUS_CONTENT: &str = "<script>doEvil();</script>";

#[test]
fn escapes_user_input_in_subject() {
    let output = render_error_page(MALICIOUS_CONTENT, "A body", "en");

    assert!(!output.contains(MALICIOUS_CONTENT));
}

#[test]
fn escapes_user_input_in_body() {
    let output = render_error_page("A subject", MALICIOUS_CONTENT, "en");

    assert!(!output.contains(MALICIOUS_CONTENT));
}

#[test]
fn renders_paragraphs_in_body() {
    let output = render_error_page("A subject", "A paragraph\n\nAnother paragraph", "en");

    assert!(output.contains("<p>A paragraph</p><p>Another paragraph</p>"));
}

#[test]
fn renders_english_when_requested() {
    let output = render_error_page("A subject", "A paragraph\n\nAnother paragraph", "en");

    assert!(output.contains("Something went wrong"));
}

#[test]
fn renders_german_when_requested() {
    let output = render_error_page("A subject", "A paragraph\n\nAnother paragraph", "de");

    assert!(output.contains("Leider ist etwas schiefgelaufen"));
}

#[test]
fn renders_english_for_unknown_language() {
    let output = render_error_page("A subject", "A body", "fr");

    assert!(output.contains("Something went wrong"));
}

#[test]
fn escapes_every_markup_character() {
    let output = render_paragraphs("<b>&\"'</b>");

    assert_eq!(output, "<p>&lt;b&gt;&amp;&quot;&#39;&lt;/b&gt;</p>");
}

#[test]
fn renders_empty_body_as_one_empty_paragraph() {
    let output = render_paragraphs("");

    assert_eq!(output, "<p></p>");
}

#[test]
fn keeps_plain_text_unchanged_in_paragraphs() {
    let output = render_paragraphs("hello there");

    assert_eq!(output, "<p>hello there</p>");
}

#[test]
fn renders_subject_and_body_in_page() {
    let output = render_error_page("My subject", "My body", "en");

    assert!(output.contains("My subject"));
    assert!(output.contains("My body"));
}

//! A configurable stand-in for the CAPTCHA verification service.
//!
//! Tests drive the pipeline against this fake: it checks the posted
//! sitekey, secret and solution against its configuration and answers as
//! the real service would, including the misbehaviours a test may ask for
//! (an unparseable body, an expired-solution verdict). The decision is
//! verified here; serving it over HTTP is the caller's concern.

use vstd::prelude::*;

use crate::text::str_eq;

verus! {

/// The fake verification service's configuration.
#[derive(Debug, Clone)]
pub struct FakeFriendlyCaptcha {
    pub required_sitekey: String,
    pub required_secret: String,
    pub required_solution: Option<String>,
    pub invalid_response: bool,
    pub solution_timeout: bool,
}

/// What the fake service answers to a verification request.
#[derive(Debug, Clone)]
pub enum FakeVerifierReply {
    /// A plain-text body that is not a verdict at all (not valid JSON),
    /// under this HTTP status.
    Unparseable { status: u16, body: String },
    /// A JSON verdict with this HTTP status, success flag and error codes.
    Verdict { status: u16, success: bool, errors: Vec<String> },
}

/// The contract of [`FakeFriendlyCaptcha::respond`]: misbehaviours first,
/// then the sitekey, the secret and finally the solution are checked.
pub open spec fn respond_post(
    f: FakeFriendlyCaptcha,
    solution: Seq<char>,
    secret: Seq<char>,
    sitekey: Seq<char>,
    r: FakeVerifierReply,
) -> bool {
    if f.invalid_response {
        &&& r matches FakeVerifierReply::Unparseable { status, body }
        &&& status == 200
        &&& body@ == "Invalid response"@
    } else if f.solution_timeout {
        verdict_with(r, 200, false, seq!["solution_timeout_or_duplicate"@])
    } else if sitekey != f.required_sitekey@ {
        verdict_with(r, 400, false, seq!["bad_request"@])
    } else if secret != f.required_secret@ {
        verdict_with(r, 401, false, seq!["secret_invalid"@])
    } else if f.required_solution matches Some(required) && solution != required@ {
        verdict_with(r, 200, false, seq!["solution_invalid"@])
    } else {
        verdict_with(r, 200, true, Seq::empty())
    }
}

/// Whether `r` is a verdict with exactly this status, flag and error
/// codes.
pub open spec fn verdict_with(
    r: FakeVerifierReply,
    status: u16,
    success: bool,
    errors: Seq<Seq<char>>,
) -> bool {
    &&& r matches FakeVerifierReply::Verdict { status: st, success: su, errors: e }
    &&& st == status
    &&& su == success
    &&& e.deep_view() == errors
}

impl FakeFriendlyCaptcha {
    /// A fake service requiring this sitekey and secret, accepting every
    /// solution and misbehaving in no way.
    pub fn new(required_sitekey: &str, required_secret: &str) -> (f: Self)
        ensures
            f.required_sitekey@ == required_sitekey@,
            f.required_secret@ == required_secret@,
            f.required_solution is None,
            !f.invalid_response,
            !f.solution_timeout,
    {
        FakeFriendlyCaptcha {
            required_sitekey: required_sitekey.to_owned(),
            required_secret: required_secret.to_owned(),
            required_solution: None,
            invalid_response: false,
            solution_timeout: false,
        }
    }

    /// The same service, accepting only this solution.
    pub fn require_solution(self, required_solution: &str) -> (f: Self)
        ensures
            f.required_sitekey@ == self.required_sitekey@,
            f.required_secret@ == self.required_secret@,
            f.required_solution matches Some(s) && s@ == required_solution@,
            f.invalid_response == self.invalid_response,
            f.solution_timeout == self.solution_timeout,
    {
        FakeFriendlyCaptcha { required_solution: Some(required_solution.to_owned()), ..self }
    }

    /// The same service, answering every request with an unparseable body.
    pub fn return_invalid_response(self) -> (f: Self)
        ensures
            f.required_sitekey@ == self.required_sitekey@,
            f.required_secret@ == self.required_secret@,
            f.required_solution == self.required_solution,
            f.invalid_response,
            f.solution_timeout == self.solution_timeout,
    {
        FakeFriendlyCaptcha { invalid_response: true, ..self }
    }

    /// The same service, rejecting every solution as expired or already
    /// used.
    pub fn return_solution_timeout(self) -> (f: Self)
        ensures
            f.required_sitekey@ == self.required_sitekey@,
            f.required_secret@ == self.required_secret@,
            f.required_solution == self.required_solution,
            f.invalid_response == self.invalid_response,
            f.solution_timeout,
    {
        FakeFriendlyCaptcha { solution_timeout: true, ..self }
    }

    /// Where the fake service listens, as seen from inside a container.
    pub fn verify_url() -> (url: String)
        ensures
            url@ == "http://172.17.0.1:5283/verify"@,
    {
        "http://172.17.0.1:5283/verify".to_owned()
    }

    /// Answers one verification request: misbehaviours first, then the
    /// sitekey, the secret and finally the solution are checked.
    pub fn respond(&self, solution: &str, secret: &str, sitekey: &str) -> (r: FakeVerifierReply)
        ensures
            respond_post(*self, solution@, secret@, sitekey@, r),
    {
        if self.invalid_response {
            FakeVerifierReply::Unparseable { status: 200, body: "Invalid response".to_owned() }
        } else if self.solution_timeout {
            let errors = vec!["solution_timeout_or_duplicate".to_owned()];
            proof {
                assert(errors.deep_view() =~= seq!["solution_timeout_or_duplicate"@]);
            }
            FakeVerifierReply::Verdict { status: 200, success: false, errors }
        } else if !str_eq(sitekey, self.required_sitekey.as_str()) {
            let errors = vec!["bad_request".to_owned()];
            proof {
                assert(errors.deep_view() =~= seq!["bad_request"@]);
            }
            FakeVerifierReply::Verdict { status: 400, success: false, errors }
        } else if !str_eq(secret, self.required_secret.as_str()) {
            let errors = vec!["secret_invalid".to_owned()];
            proof {
                assert(errors.deep_view() =~= seq!["secret_invalid"@]);
            }
            FakeVerifierReply::Verdict { status: 401, success: false, errors }
        } else {
            let accepted = match &self.required_solution {
                Some(required) => str_eq(solution, required.as_str()),
                None => true,
            };
            if accepted {
                let errors: Vec<String> = Vec::new();
                proof {
                    assert(errors.deep_view() =~= Seq::<Seq<char>>::empty());
                }
                FakeVerifierReply::Verdict { status: 200, success: true, errors }
            } else {
                let errors = vec!["solution_invalid".to_owned()];
                proof {
                    assert(errors.deep_view() =~= seq!["solution_invalid"@]);
                }
                FakeVerifierReply::Verdict { status: 200, success: false, errors }
            }
        }
    }
}

} // verus!

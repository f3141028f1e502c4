//! The CAPTCHA verification protocol.
//!
//! The verifier owns a memoized copy of the service credentials and decides,
//! step by step, how a solution token is checked against the external
//! verification endpoint. Every network action is taken by the caller, which
//! reports its outcome back as plain values; the decisions themselves are
//! verified here. The policy is fail-open: when the credential fetch or the
//! endpoint itself is unavailable, the solution is waved through rather than
//! blocking a legitimate submitter.

use vstd::prelude::*;

use crate::pipeline::{internal_error_parts, ContactFormError};
use crate::text::{join_with, spec_join, str_eq};

verus! {

/// The credentials for the verification service: the public sitekey and the
/// account secret. Fetched from the secret store at most once per process.
#[derive(Debug, Clone)]
pub struct FriendlyCaptchaData {
    pub sitekey: String,
    pub secret: String,
}

/// The JSON payload posted to the verification endpoint.
#[derive(Debug, Clone)]
pub struct FriendlyCaptchaVerifyPayload {
    pub solution: String,
    pub secret: String,
    pub sitekey: String,
}

/// The decoded body of a verification response: a success flag and an
/// optional list of error codes (empty when absent).
#[derive(Debug, Clone)]
pub struct FriendlyCaptchaResponse {
    pub success: bool,
    pub errors: Vec<String>,
}

/// How a verification attempt can fail.
///
/// `BackendError` marks the fail-open conditions: it is absorbed by
/// [`conclude`] and never reaches the pipeline.
#[derive(Debug, Clone)]
pub enum FriendlyCaptchaError {
    /// The verification request itself was rejected with a client-error
    /// status; carries the transport's description.
    ClientError(String),
    /// The endpoint answered 401: the configured secret is wrong.
    IncorrectSecret,
    /// The solution was rejected as invalid.
    SolutionInvalid,
    /// The solution expired or was already used.
    SolutionTimeoutOrDuplicate,
    /// The endpoint reported only error codes this library does not know.
    UnrecognizedError(Vec<String>),
    /// The credential fetch or the endpoint was unavailable: fail open.
    BackendError,
}

/// Whether some element of `errors` reads exactly `target`.
pub open spec fn seq_contains_str(errors: Seq<String>, target: Seq<char>) -> bool {
    exists|i: int| 0 <= i < errors.len() && #[trigger] errors[i]@ == target
}

/// Whether `errors` holds the code `code`.
fn contains_code(errors: &Vec<String>, code: &str) -> (r: bool)
    ensures
        r == seq_contains_str(errors@, code@),
{
    let mut i: usize = 0;
    while i < errors.len()
        invariant
            i <= errors.len(),
            forall|j: int| 0 <= j < i ==> #[trigger] errors@[j]@ != code@,
        decreases errors.len() - i,
    {
        if str_eq(errors[i].as_str(), code) {
            return true;
        }
        i += 1;
    }
    false
}

/// The HTTP status with which the verification endpoint signals a wrong
/// account secret.
pub open spec fn spec_unauthorized(status: u16) -> bool {
    status == 401
}

/// What a verification response means, given the HTTP status and the decoded
/// body (`None` when the body did not decode): 401 is a misconfigured
/// secret; an undecodable body passes (fail open); otherwise the error codes
/// decide, `solution_invalid` before `solution_timeout_or_duplicate`.
pub open spec fn spec_process_response(status: u16, body: Option<FriendlyCaptchaResponse>) -> Result<
    (),
    FriendlyCaptchaError,
> {
    if spec_unauthorized(status) {
        Err(FriendlyCaptchaError::IncorrectSecret)
    } else {
        match body {
            None => Ok(()),
            Some(response) => {
                if response.success {
                    Ok(())
                } else if seq_contains_str(response.errors@, "solution_invalid"@) {
                    Err(FriendlyCaptchaError::SolutionInvalid)
                } else if seq_contains_str(response.errors@, "solution_timeout_or_duplicate"@) {
                    Err(FriendlyCaptchaError::SolutionTimeoutOrDuplicate)
                } else {
                    Err(FriendlyCaptchaError::UnrecognizedError(response.errors))
                }
            },
        }
    }
}

/// Classifies a response from the verification endpoint. The caller reports
/// the HTTP status and the decoded body, `None` when the body was not valid
/// JSON for a verdict; an undecodable body is waved through (fail open).
pub fn process_response(status: u16, body: Option<FriendlyCaptchaResponse>) -> (r: Result<
    (),
    FriendlyCaptchaError,
>)
    ensures
        r == spec_process_response(status, body),
{
    if status == 401 {
        return Err(FriendlyCaptchaError::IncorrectSecret);
    }
    match body {
        None => Ok(()),
        Some(response) => {
            if response.success {
                Ok(())
            } else if contains_code(&response.errors, "solution_invalid") {
                Err(FriendlyCaptchaError::SolutionInvalid)
            } else if contains_code(&response.errors, "solution_timeout_or_duplicate") {
                Err(FriendlyCaptchaError::SolutionTimeoutOrDuplicate)
            } else {
                Err(FriendlyCaptchaError::UnrecognizedError(response.errors))
            }
        },
    }
}

/// A client-error HTTP status: the 4xx range.
pub open spec fn spec_client_error_status(status: Option<u16>) -> bool {
    status matches Some(s) && 400 <= s < 500
}

/// How a failure of the verification request is classified: a client-error
/// status is the caller's fault, anything else is a backend outage.
pub open spec fn spec_classify_send_failure(status: Option<u16>, description: String)
    -> FriendlyCaptchaError {
    if spec_client_error_status(status) {
        FriendlyCaptchaError::ClientError(description)
    } else {
        FriendlyCaptchaError::BackendError
    }
}

/// Classifies a failure of the verification request itself: a client-error
/// status is the caller's fault, anything else (no response, server error,
/// timeout) is a backend outage and fails open.
pub fn classify_send_failure(status: Option<u16>, description: String) -> (e:
    FriendlyCaptchaError)
    ensures
        e == spec_classify_send_failure(status, description),
{
    match status {
        Some(s) if 400 <= s && s < 500 => FriendlyCaptchaError::ClientError(description),
        _ => FriendlyCaptchaError::BackendError,
    }
}

/// The fail-open rule: a backend error is absorbed into a pass, every other
/// outcome is kept.
pub open spec fn spec_conclude(r: Result<(), FriendlyCaptchaError>) -> Result<
    (),
    FriendlyCaptchaError,
> {
    if r is Err && r->Err_0 is BackendError {
        Ok(())
    } else {
        r
    }
}

/// Applies the fail-open rule to the outcome of a verification attempt:
/// `BackendError` never reaches the pipeline.
pub fn conclude(r: Result<(), FriendlyCaptchaError>) -> (c: Result<(), FriendlyCaptchaError>)
    ensures
        c == spec_conclude(r),
{
    match r {
        Err(FriendlyCaptchaError::BackendError) => Ok(()),
        other => other,
    }
}

/// The contract of [`FriendlyCaptchaError::into_contact_form_error`]: how
/// each verification error surfaces to the submitter. Rejected solutions
/// and a client-error status on the verification call itself are the
/// caller's fault; everything else is internal and keeps the submitted
/// subject, body and language for the diagnostic page.
pub open spec fn captcha_error_to_contact_form(
    e: FriendlyCaptchaError,
    subject: Seq<char>,
    body: Seq<char>,
    language: Seq<char>,
    ce: ContactFormError,
) -> bool {
    match e {
        FriendlyCaptchaError::ClientError(d) => ce matches ContactFormError::ClientError(d2)
            && d2@ == "FriendlyCaptcha client error: "@ + d@,
        FriendlyCaptchaError::IncorrectSecret => internal_error_parts(
            ce,
            "Incorrect FriendlyCaptcha secret"@,
            subject,
            body,
            language,
        ),
        FriendlyCaptchaError::SolutionInvalid => ce matches ContactFormError::ClientError(d)
            && d@ == "Invalid FriendlyCaptcha solution"@,
        FriendlyCaptchaError::SolutionTimeoutOrDuplicate => ce matches ContactFormError::ClientError(
            d,
        ) && d@ == "FriendlyCaptcha solution timeout or duplicate"@,
        FriendlyCaptchaError::UnrecognizedError(codes) => internal_error_parts(
            ce,
            "FriendlyCaptcha error: "@ + spec_join(codes@, ", "@),
            subject,
            body,
            language,
        ),
        FriendlyCaptchaError::BackendError => internal_error_parts(
            ce,
            "FriendlyCaptcha backend error"@,
            subject,
            body,
            language,
        ),
    }
}

impl FriendlyCaptchaError {
    /// Surfaces a verification error to the submitter. Internal failures
    /// keep the submitted subject, body and language for the diagnostic
    /// page; caller-caused ones carry only their description.
    pub fn into_contact_form_error(self, subject: String, body: String, language: String) -> (e:
        ContactFormError)
        ensures
            captcha_error_to_contact_form(self, subject@, body@, language@, e),
    {
        match self {
            FriendlyCaptchaError::ClientError(d) => {
                let mut description = "FriendlyCaptcha client error: ".to_owned();
                description.append(d.as_str());
                ContactFormError::ClientError(description)
            },
            FriendlyCaptchaError::IncorrectSecret => ContactFormError::InternalError {
                description: "Incorrect FriendlyCaptcha secret".to_owned(),
                subject,
                body,
                language,
            },
            FriendlyCaptchaError::SolutionInvalid => ContactFormError::ClientError(
                "Invalid FriendlyCaptcha solution".to_owned(),
            ),
            FriendlyCaptchaError::SolutionTimeoutOrDuplicate => ContactFormError::ClientError(
                "FriendlyCaptcha solution timeout or duplicate".to_owned(),
            ),
            FriendlyCaptchaError::UnrecognizedError(codes) => {
                let mut description = "FriendlyCaptcha error: ".to_owned();
                let joined = join_with(&codes, ", ");
                description.append(joined.as_str());
                ContactFormError::InternalError { description, subject, body, language }
            },
            FriendlyCaptchaError::BackendError => ContactFormError::InternalError {
                description: "FriendlyCaptcha backend error".to_owned(),
                subject,
                body,
                language,
            },
        }
    }
}

/// The next step of a verification, as decided by the verifier.
#[derive(Debug)]
pub enum PayloadStep {
    /// The credentials are cached: post this payload to the endpoint.
    Ready(FriendlyCaptchaVerifyPayload),
    /// The credentials are not cached yet: fetch them from the secret store
    /// and report the result to [`FriendlyCaptchaVerifier::on_credentials`].
    NeedCredentials,
}

/// The contract of [`FriendlyCaptchaVerifier::on_credentials`]: a
/// successful fetch is cached and yields the request payload; a failed
/// fetch leaves the cache empty and fails open.
pub open spec fn on_credentials_post(
    solution: Seq<char>,
    fetch: Result<FriendlyCaptchaData, String>,
    cache_after: Option<FriendlyCaptchaData>,
    r: Result<FriendlyCaptchaVerifyPayload, FriendlyCaptchaError>,
) -> bool {
    match fetch {
        Ok(data) => {
            &&& cache_after matches Some(cached) && cached.sitekey@ == data.sitekey@
                && cached.secret@ == data.secret@
            &&& r matches Ok(p) && p.solution@ == solution && p.sitekey@ == data.sitekey@
                && p.secret@ == data.secret@
        },
        Err(_) => cache_after is None && r == Err::<
            FriendlyCaptchaVerifyPayload,
            FriendlyCaptchaError,
        >(FriendlyCaptchaError::BackendError),
    }
}

/// The verifier: decides the steps of the verification protocol and owns the
/// memoized credentials. A failed fetch leaves the cache empty, so the next
/// request fetches again.
pub struct FriendlyCaptchaVerifier {
    pub credentials: Option<FriendlyCaptchaData>,
}

impl FriendlyCaptchaVerifier {
    /// A verifier with an empty credential cache.
    pub fn new() -> (v: Self)
        ensures
            v.credentials is None,
    {
        FriendlyCaptchaVerifier { credentials: None }
    }

    /// The first step for a solution token: the payload when the credentials
    /// are already cached, otherwise a request to fetch them.
    pub fn begin_verification(&self, solution: &str) -> (step: PayloadStep)
        ensures
            match self.credentials {
                Some(data) => step matches PayloadStep::Ready(p) && p.solution@ == solution@
                    && p.sitekey@ == data.sitekey@ && p.secret@ == data.secret@,
                None => step is NeedCredentials,
            },
    {
        match &self.credentials {
            Some(data) => PayloadStep::Ready(
                FriendlyCaptchaVerifyPayload {
                    solution: solution.to_owned(),
                    secret: data.secret.clone(),
                    sitekey: data.sitekey.clone(),
                },
            ),
            None => PayloadStep::NeedCredentials,
        }
    }

    /// Takes the outcome of the credential fetch. A successful fetch fills
    /// the cache and yields the payload to post; a failed fetch leaves the
    /// cache empty — so a later request retries — and fails open.
    pub fn on_credentials(&mut self, solution: &str, fetch: Result<FriendlyCaptchaData, String>)
        -> (r: Result<FriendlyCaptchaVerifyPayload, FriendlyCaptchaError>)
        requires
            old(self).credentials is None,
        ensures
            on_credentials_post(solution@, fetch, final(self).credentials, r),
    {
        match fetch {
            Ok(data) => {
                let payload = FriendlyCaptchaVerifyPayload {
                    solution: solution.to_owned(),
                    secret: data.secret.clone(),
                    sitekey: data.sitekey.clone(),
                };
                self.credentials = Some(data);
                Ok(payload)
            },
            Err(_) => Err(FriendlyCaptchaError::BackendError),
        }
    }

    /// The verification endpoint: the configured override when one is set,
    /// otherwise the service's fixed URL.
    pub fn verification_url(env_override: Option<String>) -> (url: String)
        ensures
            match env_override {
                Some(configured) => url@ == configured@,
                None => url@ == "https://api.friendlycaptcha.com/api/v1/siteverify"@,
            },
    {
        match env_override {
            Some(configured) => configured,
            None => "https://api.friendlycaptcha.com/api/v1/siteverify".to_owned(),
        }
    }
}

} // verus!

//! The library-wide guarantees, stated once over the contracts of the
//! pipeline's step functions and proved by Verus.
//!
//! Each lemma quantifies over the values a driver of the pipeline can
//! observe, assuming only the step contracts that the driver itself relies
//! on.

use vstd::prelude::*;

use crate::friendlycaptcha::{
    on_credentials_post, seq_contains_str, spec_classify_send_failure, spec_client_error_status,
    spec_conclude, spec_process_response, spec_unauthorized, FriendlyCaptchaData,
    FriendlyCaptchaError, FriendlyCaptchaResponse, FriendlyCaptchaVerifyPayload,
};
use crate::pipeline::{
    after_captcha_post, after_dispatch_post, mailbox_valid, required_fields_present,
    spec_reply_to, start_post, ContactFormMessage, DispatchOutcome, PipelineStep,
    ValidatedContactFormMessage,
};

verus! {

/// A submission missing a required field is answered with a client error
/// straight away: the pipeline's first step is neither a verification nor
/// a dispatch, so no call to the verifier or the mail transport can occur.
pub proof fn lemma_invalid_submission_makes_no_outside_call(
    msg: ContactFormMessage,
    s: PipelineStep,
)
    requires
        !required_fields_present(msg),
        start_post(msg, s),
    ensures
        !(s is VerifyCaptcha),
        !(s is Dispatch),
        ({
            &&& s matches PipelineStep::Done(r)
            &&& r matches Err(e)
            &&& e is ClientError
        }),
{
}

/// The fail-open rule never surfaces a backend outage: it turns exactly
/// the backend error into a pass and keeps every other outcome.
pub proof fn lemma_fail_open_absorbs_backend_errors(r: Result<(), FriendlyCaptchaError>)
    ensures
        spec_conclude(Err(FriendlyCaptchaError::BackendError)) == Ok::<
            (),
            FriendlyCaptchaError,
        >(()),
        r is Ok ==> spec_conclude(r) == r,
        r matches Err(e) ==> (if e is BackendError {
            spec_conclude(r) == Ok::<(), FriendlyCaptchaError>(())
        } else {
            spec_conclude(r) == r
        }),
{
}

/// A failure of the verification call without a client-error status — the
/// verifier unreachable, a server error, a timeout — is classified as a
/// backend error and so fails open.
pub proof fn lemma_unreachable_verifier_fails_open(status: Option<u16>, description: String)
    requires
        !spec_client_error_status(status),
    ensures
        spec_conclude(Err(spec_classify_send_failure(status, description))) == Ok::<
            (),
            FriendlyCaptchaError,
        >(()),
{
}

/// A verifier answer whose body does not decode passes verification, and a
/// valid submission then still reaches dispatch: an outage of the verifier
/// never blocks the email.
pub proof fn lemma_verifier_outage_still_dispatches(
    msg: ValidatedContactFormMessage,
    status: u16,
    s: PipelineStep,
)
    requires
        !spec_unauthorized(status),
        mailbox_valid(spec_reply_to(msg.name, msg.email@)),
        after_captcha_post(msg, spec_conclude(spec_process_response(status, None)), s),
    ensures
        s is Dispatch,
{
}

/// A verdict rejecting the solution as invalid ends the pipeline with a
/// client error and dispatches nothing.
pub proof fn lemma_rejected_solution_never_dispatches(
    msg: ValidatedContactFormMessage,
    status: u16,
    response: FriendlyCaptchaResponse,
    s: PipelineStep,
)
    requires
        !spec_unauthorized(status),
        !response.success,
        seq_contains_str(response.errors@, "solution_invalid"@),
        after_captcha_post(msg, spec_conclude(spec_process_response(status, Some(response))), s),
    ensures
        !(s is Dispatch),
        ({
            &&& s matches PipelineStep::Done(r)
            &&& r matches Err(e)
            &&& e is ClientError
        }),
{
}

/// A failed credential fetch is not cached — the next request retries the
/// fetch from scratch — and the current verification fails open.
pub proof fn lemma_failed_credential_fetch_not_cached(
    solution: Seq<char>,
    reason: String,
    cache_after: Option<FriendlyCaptchaData>,
    r: Result<FriendlyCaptchaVerifyPayload, FriendlyCaptchaError>,
)
    requires
        on_credentials_post(solution, Err(reason), cache_after, r),
    ensures
        cache_after is None,
        r == Err::<FriendlyCaptchaVerifyPayload, FriendlyCaptchaError>(
            FriendlyCaptchaError::BackendError,
        ),
        spec_conclude(Err(FriendlyCaptchaError::BackendError)) == Ok::<
            (),
            FriendlyCaptchaError,
        >(()),
{
}

/// Once the secret is available again, the fetch fills the cache and the
/// verification really reaches the endpoint: the request payload carries
/// the fetched credentials and the submitted solution.
pub proof fn lemma_recovered_credential_fetch_verifies(
    solution: Seq<char>,
    data: FriendlyCaptchaData,
    cache_after: Option<FriendlyCaptchaData>,
    r: Result<FriendlyCaptchaVerifyPayload, FriendlyCaptchaError>,
)
    requires
        on_credentials_post(solution, Ok(data), cache_after, r),
    ensures
        ({
            &&& cache_after matches Some(cached)
            &&& cached.sitekey@ == data.sitekey@
            &&& cached.secret@ == data.secret@
        }),
        ({
            &&& r matches Ok(payload)
            &&& payload.solution@ == solution
            &&& payload.sitekey@ == data.sitekey@
            &&& payload.secret@ == data.secret@
        }),
{
}

/// A dispatch that could not even reach the transport — for instance
/// because the mail credentials were missing for an encrypted endpoint —
/// ends the pipeline with an internal error: no success is reported for an
/// unsent email.
pub proof fn lemma_failed_dispatch_is_internal_error(
    msg: ValidatedContactFormMessage,
    description: String,
    s: PipelineStep,
)
    requires
        after_dispatch_post(msg, DispatchOutcome::ConnectFailed(description), s),
    ensures
        ({
            &&& s matches PipelineStep::Done(r)
            &&& r matches Err(e)
            &&& e is InternalError
        }),
{
}

} // verus!

//! The submission-processing pipeline.
//!
//! One inbound submission runs linearly through validation, CAPTCHA
//! verification, message construction and dispatch, stopping at the first
//! failure. The pipeline is a small step machine: each function takes the
//! state so far together with the outcome of the last outside call and
//! decides the next step, so that every decision is verified while the
//! caller performs the network work.

use vstd::prelude::*;

use crate::error_page::{render_error_page, spec_error_page_de, spec_error_page_en};
use crate::friendlycaptcha::{captcha_error_to_contact_form, FriendlyCaptchaError};

verus! {

/// An untrusted inbound submission: every field may be absent.
#[derive(Debug, Clone)]
pub struct ContactFormMessage {
    pub name: Option<String>,
    pub email: Option<String>,
    pub subject: Option<String>,
    pub body: Option<String>,
    pub language: Option<String>,
    pub friendlycaptcha_token: Option<String>,
}

/// A submission whose required fields are all present. Only successful
/// validation constructs one; the name stays optional.
#[derive(Debug, Clone)]
pub struct ValidatedContactFormMessage {
    pub name: Option<String>,
    pub email: String,
    pub subject: String,
    pub body: String,
    pub language: String,
    pub friendlycaptcha_token: String,
}

/// How processing a submission can fail: the caller's fault, answered with
/// a terse description, or an internal failure, which keeps the submitted
/// subject, body and language so the diagnostic page can reproduce them.
#[derive(Debug, Clone)]
pub enum ContactFormError {
    InternalError { description: String, subject: String, body: String, language: String },
    ClientError(String),
}

/// The outgoing email: fixed sender and recipient, the submitter in the
/// reply-to field, and the submitted subject and body.
#[derive(Debug, Clone)]
pub struct OutboundMessage {
    pub from: String,
    pub reply_to: String,
    pub to: String,
    pub subject: String,
    pub body: String,
}

/// Whether all required fields of a submission are present.
pub open spec fn required_fields_present(msg: ContactFormMessage) -> bool {
    &&& msg.email is Some
    &&& msg.subject is Some
    &&& msg.body is Some
    &&& msg.language is Some
    &&& msg.friendlycaptcha_token is Some
}

/// Whether `v` carries exactly the fields of `msg`.
pub open spec fn validated_from(msg: ContactFormMessage, v: ValidatedContactFormMessage) -> bool {
    &&& v.name.deep_view() == msg.name.deep_view()
    &&& msg.email matches Some(email) && v.email@ == email@
    &&& msg.subject matches Some(subject) && v.subject@ == subject@
    &&& msg.body matches Some(body) && v.body@ == body@
    &&& msg.language matches Some(language) && v.language@ == language@
    &&& msg.friendlycaptcha_token matches Some(token) && v.friendlycaptcha_token@ == token@
}

/// The contract of [`ContactFormMessage::validate`]: success exactly when
/// all required fields are present, the validated copy carrying them
/// unchanged; otherwise the fixed client error.
pub open spec fn validate_post(
    msg: ContactFormMessage,
    r: Result<ValidatedContactFormMessage, ContactFormError>,
) -> bool {
    &&& (r is Ok <==> required_fields_present(msg))
    &&& (r matches Ok(v) ==> validated_from(msg, v))
    &&& (r matches Err(e) ==> {
        &&& e matches ContactFormError::ClientError(d)
        &&& d@ == "Missing fields in request"@
    })
}

impl ContactFormMessage {
    /// Checks that every required field is present, yielding the validated
    /// submission or the fixed client error.
    pub fn validate(self) -> (r: Result<ValidatedContactFormMessage, ContactFormError>)
        ensures
            validate_post(self, r),
    {
        match self {
            ContactFormMessage {
                name,
                email: Some(email),
                subject: Some(subject),
                body: Some(body),
                language: Some(language),
                friendlycaptcha_token: Some(friendlycaptcha_token),
            } => Ok(
                ValidatedContactFormMessage {
                    name,
                    email,
                    subject,
                    body,
                    language,
                    friendlycaptcha_token,
                },
            ),
            _ => Err(ContactFormError::ClientError("Missing fields in request".to_owned())),
        }
    }
}

/// The reply-to header for a submitter: `name <email>` when a name was
/// given, the bare address otherwise.
pub open spec fn spec_reply_to(name: Option<String>, email: Seq<char>) -> Seq<char> {
    match name {
        Some(n) => n@ + " <"@ + email + ">"@,
        None => email,
    }
}

/// Builds the reply-to header text for a submitter.
pub fn reply_to_address(name: &Option<String>, email: &String) -> (r: String)
    ensures
        r@ == spec_reply_to(*name, email@),
{
    match name {
        Some(n) => {
            let mut r = n.clone();
            r.append(" <");
            r.append(email.as_str());
            r.append(">");
            r
        },
        None => email.clone(),
    }
}

/// Whether lettre's mailbox grammar accepts `s` — named here, stated only
/// through [`parse_mailbox_ok`].
pub uninterp spec fn mailbox_valid(s: Seq<char>) -> bool;

/// Relies on `lettre::message::Mailbox`'s `FromStr` impl: a pure parser of
/// the input string, accepting exactly lettre's mailbox grammar.
#[verifier::external_body]
pub(crate) fn parse_mailbox_ok(s: &str) -> (r: bool)
    ensures
        r == mailbox_valid(s@),
{
    s.parse::<lettre::message::Mailbox>().is_ok()
}

/// The contract of [`construct_email_message`]: success exactly when the
/// submitter's reply-to text parses as a mailbox, the message then carrying
/// the fixed sender and recipient and the submitted subject and body;
/// otherwise a client error naming the submitted address.
pub open spec fn construct_email_post(
    msg: ValidatedContactFormMessage,
    r: Result<OutboundMessage, ContactFormError>,
) -> bool {
    &&& (r is Ok <==> mailbox_valid(spec_reply_to(msg.name, msg.email@)))
    &&& (r matches Ok(m) ==> {
        &&& m.from@ == "Web contact form <noreply@hovinen.tech>"@
        &&& m.reply_to@ == spec_reply_to(msg.name, msg.email@)
        &&& m.to@ == "Bradford Hovinen <bradford@hovinen.tech>"@
        &&& m.subject@ == msg.subject@
        &&& m.body@ == msg.body@
    })
    &&& (r matches Err(e) ==> {
        &&& e matches ContactFormError::ClientError(d)
        &&& d@ == "Invalid email address "@ + msg.email@
    })
}

/// Composes the outgoing email for a validated submission. The submitter's
/// address is checked against the mailbox grammar; a malformed address is
/// the caller's fault, never an internal error.
pub fn construct_email_message(msg: &ValidatedContactFormMessage) -> (r: Result<
    OutboundMessage,
    ContactFormError,
>)
    ensures
        construct_email_post(*msg, r),
{
    let reply_to = reply_to_address(&msg.name, &msg.email);
    if parse_mailbox_ok(reply_to.as_str()) {
        Ok(
            OutboundMessage {
                from: "Web contact form <noreply@hovinen.tech>".to_owned(),
                reply_to,
                to: "Bradford Hovinen <bradford@hovinen.tech>".to_owned(),
                subject: msg.subject.clone(),
                body: msg.body.clone(),
            },
        )
    } else {
        let mut description = "Invalid email address ".to_owned();
        description.append(msg.email.as_str());
        Err(ContactFormError::ClientError(description))
    }
}

/// What the pipeline asks its caller to do next. Only `VerifyCaptcha` and
/// `Dispatch` reach the network; `Done` answers the submitter.
#[derive(Debug)]
pub enum PipelineStep {
    /// Verify the submission's CAPTCHA solution.
    VerifyCaptcha(ValidatedContactFormMessage),
    /// Send this email, then report the outcome to [`after_dispatch`].
    Dispatch { email: OutboundMessage, message: ValidatedContactFormMessage },
    /// Processing has finished: on success the submission's language, used
    /// to pick the localized success page.
    Done(Result<String, ContactFormError>),
}

/// The contract of [`start`]: an invalid submission is rejected at once —
/// no verification, no dispatch — and a valid one moves to verification.
pub open spec fn start_post(msg: ContactFormMessage, s: PipelineStep) -> bool {
    &&& (s is VerifyCaptcha <==> required_fields_present(msg))
    &&& (s matches PipelineStep::VerifyCaptcha(v) ==> validated_from(msg, v))
    &&& (!required_fields_present(msg) ==> {
        &&& s matches PipelineStep::Done(r)
        &&& r matches Err(e)
        &&& e matches ContactFormError::ClientError(d)
        &&& d@ == "Missing fields in request"@
    })
}

/// The first pipeline step: validation.
pub fn start(msg: ContactFormMessage) -> (s: PipelineStep)
    ensures
        start_post(msg, s),
{
    match msg.validate() {
        Ok(validated) => PipelineStep::VerifyCaptcha(validated),
        Err(error) => PipelineStep::Done(Err(error)),
    }
}

/// The contract of [`after_captcha`]: a verification error ends the
/// pipeline with the corresponding submission error, keeping the submitted
/// content; a pass moves on to message construction, whose failure is a
/// client error.
pub open spec fn after_captcha_post(
    msg: ValidatedContactFormMessage,
    outcome: Result<(), FriendlyCaptchaError>,
    s: PipelineStep,
) -> bool {
    &&& (outcome matches Err(e) ==> {
        &&& s matches PipelineStep::Done(r)
        &&& r matches Err(ce)
        &&& captcha_error_to_contact_form(e, msg.subject@, msg.body@, msg.language@, ce)
    })
    &&& (outcome is Ok ==> {
        if mailbox_valid(spec_reply_to(msg.name, msg.email@)) {
            &&& s matches PipelineStep::Dispatch { email, message }
            &&& construct_email_post(msg, Ok(email))
            &&& message == msg
        } else {
            &&& s matches PipelineStep::Done(r)
            &&& r matches Err(e)
            &&& e matches ContactFormError::ClientError(d)
            &&& d@ == "Invalid email address "@ + msg.email@
        }
    })
}

/// Continues the pipeline once the CAPTCHA verification has concluded.
/// `outcome` is the concluded verification result, in which a fail-open
/// backend error has already been absorbed into a pass.
pub fn after_captcha(
    message: ValidatedContactFormMessage,
    outcome: Result<(), FriendlyCaptchaError>,
) -> (s: PipelineStep)
    ensures
        after_captcha_post(message, outcome, s),
{
    match outcome {
        Err(error) => {
            let subject = message.subject.clone();
            let body = message.body.clone();
            let language = message.language.clone();
            PipelineStep::Done(Err(error.into_contact_form_error(subject, body, language)))
        },
        Ok(()) => match construct_email_message(&message) {
            Ok(email) => PipelineStep::Dispatch { email, message },
            Err(error) => PipelineStep::Done(Err(error)),
        },
    }
}

/// The outcome of the dispatch stage, as reported by the caller.
#[derive(Debug, Clone)]
pub enum DispatchOutcome {
    /// The transport accepted the message.
    Sent,
    /// The transport could not be constructed or reached; carries the
    /// underlying description.
    ConnectFailed(String),
    /// The transport rejected the send; carries the underlying description.
    SendFailed(String),
}

/// The contract of [`after_dispatch`]: a sent message ends the pipeline
/// successfully with the submission's language; any dispatch failure is an
/// internal error keeping the submitted content.
pub open spec fn after_dispatch_post(
    msg: ValidatedContactFormMessage,
    outcome: DispatchOutcome,
    s: PipelineStep,
) -> bool {
    match outcome {
        DispatchOutcome::Sent => {
            &&& s matches PipelineStep::Done(r)
            &&& r matches Ok(lang)
            &&& lang@ == msg.language@
        },
        DispatchOutcome::ConnectFailed(d) => {
            &&& s matches PipelineStep::Done(r)
            &&& r matches Err(e)
            &&& internal_error_with(e, "Unable to connect to SMTP server: "@ + d@, msg)
        },
        DispatchOutcome::SendFailed(d) => {
            &&& s matches PipelineStep::Done(r)
            &&& r matches Err(e)
            &&& internal_error_with(e, "Error sending message: "@ + d@, msg)
        },
    }
}

/// Whether `e` is an internal error with exactly these description,
/// subject, body and language texts.
pub open spec fn internal_error_parts(
    e: ContactFormError,
    description: Seq<char>,
    subject: Seq<char>,
    body: Seq<char>,
    language: Seq<char>,
) -> bool {
    &&& e matches ContactFormError::InternalError { description: d, subject: s, body: b, language: l }
    &&& d@ == description
    &&& s@ == subject
    &&& b@ == body
    &&& l@ == language
}

/// Whether `e` is an internal error with description `description` that
/// keeps the submitted subject, body and language of `msg`.
pub open spec fn internal_error_with(
    e: ContactFormError,
    description: Seq<char>,
    msg: ValidatedContactFormMessage,
) -> bool {
    internal_error_parts(e, description, msg.subject@, msg.body@, msg.language@)
}

/// Ends the pipeline once the dispatch stage has reported its outcome.
pub fn after_dispatch(message: ValidatedContactFormMessage, outcome: DispatchOutcome) -> (s:
    PipelineStep)
    ensures
        after_dispatch_post(message, outcome, s),
{
    match outcome {
        DispatchOutcome::Sent => PipelineStep::Done(Ok(message.language)),
        DispatchOutcome::ConnectFailed(d) => {
            let mut description = "Unable to connect to SMTP server: ".to_owned();
            description.append(d.as_str());
            PipelineStep::Done(
                Err(
                    ContactFormError::InternalError {
                        description,
                        subject: message.subject,
                        body: message.body,
                        language: message.language,
                    },
                ),
            )
        },
        DispatchOutcome::SendFailed(d) => {
            let mut description = "Error sending message: ".to_owned();
            description.append(d.as_str());
            PipelineStep::Done(
                Err(
                    ContactFormError::InternalError {
                        description,
                        subject: message.subject,
                        body: message.body,
                        language: message.language,
                    },
                ),
            )
        },
    }
}

/// How severely a failure is logged: a caller-fixable failure is noise at
/// the lower severity, an internal one calls for the operator's eye.
#[derive(Debug, Clone, Copy, PartialEq, Eq)]
pub enum LogSeverity {
    /// The lower severity, for failures the caller can fix.
    Warning,
    /// The higher severity, for failures the caller cannot fix.
    Error,
}

/// The parts of the HTTP answer to a submission, ready for whatever
/// envelope the hosting runtime uses.
#[derive(Debug, Clone)]
pub struct HttpResponseParts {
    pub status: u16,
    pub content_type: Option<String>,
    pub location: Option<String>,
    pub body: String,
}

/// The contract of [`ContactFormError::into_response`]: an internal error
/// renders the localized diagnostic page with the submitted content; a
/// client error answers tersely.
pub open spec fn into_response_post(e: ContactFormError, r: HttpResponseParts) -> bool {
    match e {
        ContactFormError::InternalError { subject, body, language, .. } => {
            &&& r.status == 500
            &&& r.content_type matches Some(ct) && ct@ == "text/html; charset=utf-8"@
            &&& r.location is None
            &&& (language@ == "de"@ ==> r.body@ == spec_error_page_de(subject@, body@))
            &&& (language@ != "de"@ ==> r.body@ == spec_error_page_en(subject@, body@))
        },
        ContactFormError::ClientError(d) => {
            &&& r.status == 400
            &&& r.content_type is None
            &&& r.location is None
            &&& r.body@ == "Client error: "@ + d@
        },
    }
}

impl ContactFormError {
    /// The HTTP answer for a failed submission: an internal error renders
    /// the localized diagnostic page so the submitter keeps their content;
    /// a client error answers tersely.
    pub fn into_response(self) -> (r: HttpResponseParts)
        ensures
            into_response_post(self, r),
    {
        match self {
            ContactFormError::InternalError { subject, body, language, .. } => {
                let page = render_error_page(subject.as_str(), body.as_str(), language.as_str());
                HttpResponseParts {
                    status: 500,
                    content_type: Some("text/html; charset=utf-8".to_owned()),
                    location: None,
                    body: page,
                }
            },
            ContactFormError::ClientError(description) => {
                let mut body = "Client error: ".to_owned();
                body.append(description.as_str());
                HttpResponseParts { status: 400, content_type: None, location: None, body }
            },
        }
    }

    /// The severity under which this failure is logged: a client error is
    /// recorded at the lower severity, an internal error at the higher.
    pub fn log_severity(&self) -> (s: LogSeverity)
        ensures
            s is Error <==> *self is InternalError,
            s is Warning <==> *self is ClientError,
    {
        match self {
            ContactFormError::InternalError { .. } => LogSeverity::Error,
            ContactFormError::ClientError(_) => LogSeverity::Warning,
        }
    }

    /// The line under which this failure is logged: internal errors carry
    /// their technical description, client errors their short one.
    pub fn log_line(&self) -> (line: String)
        ensures
            (*self matches ContactFormError::InternalError { description, .. } ==> line@
                == "Internal error sending contact form email: "@ + description@),
            (*self matches ContactFormError::ClientError(d) ==> line@
                == "Client error sending contact form email: "@ + d@),
    {
        match self {
            ContactFormError::InternalError { description, .. } => {
                let mut line = "Internal error sending contact form email: ".to_owned();
                line.append(description.as_str());
                line
            },
            ContactFormError::ClientError(description) => {
                let mut line = "Client error sending contact form email: ".to_owned();
                line.append(description.as_str());
                line
            },
        }
    }
}

/// The error answered when the inbound request carries no payload at all:
/// an internal failure with nothing of the submission to preserve.
pub fn missing_payload_error() -> (e: ContactFormError)
    ensures
        internal_error_parts(
            e,
            "Missing event payload"@,
            "(Unable to retrieve)"@,
            "(Unable to retrieve)"@,
            "en"@,
        ),
{
    ContactFormError::InternalError {
        description: "Missing event payload".to_owned(),
        subject: "(Unable to retrieve)".to_owned(),
        body: "(Unable to retrieve)".to_owned(),
        language: "en".to_owned(),
    }
}

/// The HTTP answer for a processed submission: a redirect to the
/// language's success page.
pub fn success_response(language: &str) -> (r: HttpResponseParts)
    ensures
        r.status == 303,
        r.content_type is None,
        r.body@ == Seq::<char>::empty(),
        ({
            &&& r.location matches Some(location)
            &&& (language@ == "en"@ ==> location@ == "https://hovinen.tech/email-sent.html"@)
            &&& (language@ != "en"@ ==> location@ == "https://hovinen.tech/email-sent."@
                + language@ + ".html"@)
        }),
{
    HttpResponseParts {
        status: 303,
        content_type: None,
        location: Some(create_success_url(language)),
        body: String::new(),
    }
}

/// The success page for a given language code: English uses the bare page
/// name, every other language inserts its code before the extension.
pub fn create_success_url(language: &str) -> (url: String)
    ensures
        language@ == "en"@ ==> url@ == "https://hovinen.tech/email-sent.html"@,
        language@ != "en"@ ==> url@ == "https://hovinen.tech/email-sent."@ + language@
            + ".html"@,
{
    if crate::text::str_eq(language, "en") {
        "https://hovinen.tech/email-sent.html".to_owned()
    } else {
        let mut url = "https://hovinen.tech/email-sent.".to_owned();
        url.append(language);
        url.append(".html");
        url
    }
}

} // verus!

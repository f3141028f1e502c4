use send_contact_form_message::mailer::{plan_transport, smtp_url, TransportCache, TransportPlan};
use send_contact_form_message::pipeline::{
    after_dispatch, ContactFormError, DispatchOutcome, PipelineStep, ValidatedContactFormMessage,
};

#[test]
fn default_endpoint_is_encrypted() {
    let url = smtp_url(None);

    assert_eq!(url, "smtps://email-smtp.eu-north-1.amazonaws.com");
    assert_eq!(plan_transport(&url), TransportPlan::WithCredentials);
}

#[test]
fn configured_endpoint_overrides_the_default() {
    let url = smtp_url(Some("smtp://localhost:4567".to_string()));

    assert_eq!(url, "smtp://localhost:4567");
}

#[test]
fn unencrypted_endpoint_gets_no_credentials() {
    assert_eq!(
        plan_transport("smtp://localhost:4567"),
        TransportPlan::Unauthenticated
    );
}

#[test]
fn encrypted_endpoint_gets_credentials() {
    assert_eq!(
        plan_transport("smtps://localhost:4567"),
        TransportPlan::WithCredentials
    );
}

#[test]
fn short_url_gets_no_credentials() {
    assert_eq!(plan_transport("smtp"), TransportPlan::Unauthenticated);
}

#[test]
fn transport_cache_starts_empty() {
    let cache: TransportCache<String> = TransportCache::new();

    assert!(cache.cached().is_none());
}

#[test]
fn failed_construction_is_not_cached_and_retried() {
    let mut cache: TransportCache<String> = TransportCache::new();

    let outcome = cache.on_constructed(Err("secret store unreachable".to_string()));
    assert_eq!(outcome, Err("secret store unreachable".to_string()));
    assert!(cache.cached().is_none());

    // The next request retries the construction and this time succeeds:
    // the handle is cached and reused thereafter.
    let outcome = cache.on_constructed(Ok("a transport handle".to_string()));
    assert_eq!(outcome, Ok(&"a transport handle".to_string()));
    assert_eq!(cache.cached(), Some(&"a transport handle".to_string()));
}

fn validated_message() -> ValidatedContactFormMessage {
    ValidatedContactFormMessage {
        name: None,
        email: "email@example.com".to_string(),
        subject: "Test".to_string(),
        body: "Test message".to_string(),
        language: "en".to_string(),
        friendlycaptcha_token: "correct".to_string(),
    }
}

#[test]
fn missing_mail_credentials_yield_error_page_and_no_email() {
    // The endpoint is encrypted but the secret store has no entry for the
    // mail credentials: the transport cannot be built, the pipeline ends
    // with an internal error, and the rendered page keeps the content.
    let outcome = DispatchOutcome::ConnectFailed("No such secret smtp-ses-credentials".to_string());

    let error = match after_dispatch(validated_message(), outcome) {
        PipelineStep::Done(Err(error)) => error,
        _ => panic!("a transport failure must end the pipeline with an error"),
    };
    assert!(matches!(error, ContactFormError::InternalError { .. }));

    let response = error.into_response();
    assert_eq!(response.status, 500);
    assert_eq!(
        response.content_type.as_deref(),
        Some("text/html; charset=utf-8")
    );
    assert!(response.body.contains("Something went wrong"));
    assert!(response.body.contains("Test message"));
}

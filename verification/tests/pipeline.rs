use send_contact_form_message::pipeline::{
    create_success_url, missing_payload_error, start, success_response, ContactFormError,
    ContactFormMessage, DispatchOutcome, LogSeverity, PipelineStep, ValidatedContactFormMessage,
};
use send_contact_form_message::pipeline::{after_dispatch, construct_email_message};

fn complete_message() -> ContactFormMessage {
    ContactFormMessage {
        name: Some("Arbitrary sender".to_string()),
        email: Some("email@example.com".to_string()),
        subject: Some("Test".to_string()),
        body: Some("Test message".to_string()),
        language: Some("en".to_string()),
        friendlycaptcha_token: Some("correct".to_string()),
    }
}

fn validated_message() -> ValidatedContactFormMessage {
    match complete_message().validate() {
        Ok(validated) => validated,
        Err(_) => panic!("validation should succeed"),
    }
}

#[test]
fn validate_accepts_a_complete_message() {
    let validated = validated_message();

    assert_eq!(validated.name.as_deref(), Some("Arbitrary sender"));
    assert_eq!(validated.email, "email@example.com");
    assert_eq!(validated.subject, "Test");
    assert_eq!(validated.body, "Test message");
    assert_eq!(validated.language, "en");
    assert_eq!(validated.friendlycaptcha_token, "correct");
}

#[test]
fn validate_accepts_a_message_without_name() {
    let mut message = complete_message();
    message.name = None;

    let validated = message.validate().expect("validation should succeed");

    assert_eq!(validated.name, None);
}

#[test]
fn validate_rejects_missing_email() {
    let mut message = complete_message();
    message.email = None;

    match message.validate() {
        Err(ContactFormError::ClientError(description)) => {
            assert_eq!(description, "Missing fields in request");
        }
        _ => panic!("expected a client error"),
    }
}

#[test]
fn validate_rejects_missing_subject() {
    let mut message = complete_message();
    message.subject = None;

    assert!(matches!(
        message.validate(),
        Err(ContactFormError::ClientError(_))
    ));
}

#[test]
fn validate_rejects_missing_body() {
    let mut message = complete_message();
    message.body = None;

    assert!(matches!(
        message.validate(),
        Err(ContactFormError::ClientError(_))
    ));
}

#[test]
fn validate_rejects_missing_language() {
    let mut message = complete_message();
    message.language = None;

    assert!(matches!(
        message.validate(),
        Err(ContactFormError::ClientError(_))
    ));
}

#[test]
fn validate_rejects_missing_solution() {
    let mut message = complete_message();
    message.friendlycaptcha_token = None;

    assert!(matches!(
        message.validate(),
        Err(ContactFormError::ClientError(_))
    ));
}

#[test]
fn start_rejects_incomplete_message_without_any_outside_call() {
    let mut message = complete_message();
    message.subject = None;

    match start(message) {
        PipelineStep::Done(Err(ContactFormError::ClientError(description))) => {
            assert_eq!(description, "Missing fields in request");
        }
        _ => panic!("an incomplete message must end the pipeline at once"),
    }
}

#[test]
fn start_moves_complete_message_to_verification() {
    match start(complete_message()) {
        PipelineStep::VerifyCaptcha(validated) => {
            assert_eq!(validated.friendlycaptcha_token, "correct");
        }
        _ => panic!("a complete message must move to verification"),
    }
}

#[test]
fn construct_email_builds_reply_to_with_name() {
    let email = construct_email_message(&validated_message()).expect("address should parse");

    assert_eq!(email.reply_to, "Arbitrary sender <email@example.com>");
    assert_eq!(email.from, "Web contact form <noreply@hovinen.tech>");
    assert_eq!(email.to, "Bradford Hovinen <bradford@hovinen.tech>");
    assert_eq!(email.subject, "Test");
    assert_eq!(email.body, "Test message");
}

#[test]
fn construct_email_uses_bare_address_without_name() {
    let mut validated = validated_message();
    validated.name = None;

    let email = construct_email_message(&validated).expect("address should parse");

    assert_eq!(email.reply_to, "email@example.com");
}

#[test]
fn construct_email_rejects_malformed_address() {
    let mut validated = validated_message();
    validated.name = None;
    validated.email = "not-an-address".to_string();

    match construct_email_message(&validated) {
        Err(ContactFormError::ClientError(description)) => {
            assert_eq!(description, "Invalid email address not-an-address");
        }
        _ => panic!("a malformed address must be a client error"),
    }
}

#[test]
fn dispatch_success_yields_language() {
    match after_dispatch(validated_message(), DispatchOutcome::Sent) {
        PipelineStep::Done(Ok(language)) => assert_eq!(language, "en"),
        _ => panic!("a sent message must end the pipeline successfully"),
    }
}

#[test]
fn dispatch_connect_failure_is_internal_error() {
    let outcome = DispatchOutcome::ConnectFailed("connection refused".to_string());

    match after_dispatch(validated_message(), outcome) {
        PipelineStep::Done(Err(ContactFormError::InternalError {
            description,
            subject,
            body,
            language,
        })) => {
            assert_eq!(
                description,
                "Unable to connect to SMTP server: connection refused"
            );
            assert_eq!(subject, "Test");
            assert_eq!(body, "Test message");
            assert_eq!(language, "en");
        }
        _ => panic!("a connection failure must be an internal error"),
    }
}

#[test]
fn dispatch_send_failure_is_internal_error() {
    let outcome = DispatchOutcome::SendFailed("remote error".to_string());

    match after_dispatch(validated_message(), outcome) {
        PipelineStep::Done(Err(ContactFormError::InternalError { description, .. })) => {
            assert_eq!(description, "Error sending message: remote error");
        }
        _ => panic!("a send failure must be an internal error"),
    }
}

#[test]
fn success_url_for_english() {
    assert_eq!(
        create_success_url("en"),
        "https://hovinen.tech/email-sent.html"
    );
}

#[test]
fn success_url_for_german() {
    assert_eq!(
        create_success_url("de"),
        "https://hovinen.tech/email-sent.de.html"
    );
}

#[test]
fn success_response_redirects() {
    let response = success_response("en");

    assert_eq!(response.status, 303);
    assert_eq!(
        response.location.as_deref(),
        Some("https://hovinen.tech/email-sent.html")
    );
    assert_eq!(response.body, "");
}

#[test]
fn client_error_response_is_terse() {
    let error = ContactFormError::ClientError("Missing fields in request".to_string());

    let response = error.into_response();

    assert_eq!(response.status, 400);
    assert_eq!(response.content_type, None);
    assert_eq!(response.body, "Client error: Missing fields in request");
}

#[test]
fn internal_error_response_renders_page_with_content() {
    let error = ContactFormError::InternalError {
        description: "something broke".to_string(),
        subject: "Message subject".to_string(),
        body: "Message body".to_string(),
        language: "en".to_string(),
    };

    let response = error.into_response();

    assert_eq!(response.status, 500);
    assert_eq!(
        response.content_type.as_deref(),
        Some("text/html; charset=utf-8")
    );
    assert!(response.body.contains("Something went wrong"));
    assert!(response.body.contains("Message subject"));
    assert!(response.body.contains("Message body"));
}

#[test]
fn missing_payload_is_internal_error_in_english() {
    match missing_payload_error() {
        ContactFormError::InternalError {
            description,
            subject,
            body,
            language,
        } => {
            assert_eq!(description, "Missing event payload");
            assert_eq!(subject, "(Unable to retrieve)");
            assert_eq!(body, "(Unable to retrieve)");
            assert_eq!(language, "en");
        }
        _ => panic!("a missing payload must be an internal error"),
    }
}

#[test]
fn client_errors_are_logged_at_lower_severity() {
    let client = ContactFormError::ClientError("bad input".to_string());
    let internal = ContactFormError::InternalError {
        description: "outage".to_string(),
        subject: "s".to_string(),
        body: "b".to_string(),
        language: "en".to_string(),
    };

    assert_eq!(client.log_severity(), LogSeverity::Warning);
    assert_eq!(internal.log_severity(), LogSeverity::Error);
}

#[test]
fn log_lines_name_the_error_category() {
    let client = ContactFormError::ClientError("bad input".to_string());
    let internal = ContactFormError::InternalError {
        description: "outage".to_string(),
        subject: "s".to_string(),
        body: "b".to_string(),
        language: "en".to_string(),
    };

    assert_eq!(
        client.log_line(),
        "Client error sending contact form email: bad input"
    );
    assert_eq!(
        internal.log_line(),
        "Internal error sending contact form email: outage"
    );
}

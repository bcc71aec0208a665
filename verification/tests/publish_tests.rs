//! Tests for the publish pipeline: authorization step, dispatch state
//! machine, status mapping, and error rendering.

use argon2::password_hash::SaltString;
use argon2::{Argon2, PasswordHasher};
use uuid::Uuid;
use zero2prod::authentication::validate_credentials;
use zero2prod::publish::{authorize, www_authenticate_value, AuthCause, UnexpectedCause};
use zero2prod::subscribers::get_confirmed_subscribers;
use zero2prod::{BasicAuthError, BodyData, Content, NewsletterDispatch, PublishError, StoredCredential};

fn basic_header(username: &str, password: &str) -> Option<Vec<u8>> {
    let payload = base64::encode(format!("{}:{}", username, password));
    Some(format!("Basic {}", payload).into_bytes())
}

fn phc_hash_of(password: &str) -> String {
    let salt = SaltString::from_b64("c29tZXNhbHRzdHJpbmc").unwrap();
    Argon2::default()
        .hash_password(password.as_bytes(), &salt)
        .unwrap()
        .to_string()
}

#[test]
fn dispatch_stops_on_first_send_failure() {
    let rows = vec![
        "first@example.com".to_string(),
        "second@example.com".to_string(),
        "third@example.com".to_string(),
    ];
    let mut dispatch = NewsletterDispatch::new(get_confirmed_subscribers(rows));

    // First send succeeds.
    let first = dispatch.next_recipient().unwrap().clone();
    assert_eq!(first.as_str(), "first@example.com");
    dispatch.record_success();

    // Second send fails; the third recipient is never offered.
    let second = dispatch.next_recipient().unwrap().clone();
    assert_eq!(second.as_str(), "second@example.com");
    dispatch.record_failure();

    assert!(dispatch.next_recipient().is_none());
    assert_eq!(dispatch.attempts(), 2);
    assert_eq!(
        dispatch.outcome().unwrap_err(),
        PublishError::UnexpectedError(UnexpectedCause::SendFailed(second))
    );
}

#[test]
fn dispatch_skips_malformed_rows() {
    let rows = vec![
        "first@example.com".to_string(),
        "not-an-address".to_string(),
        "second@example.com".to_string(),
    ];
    let mut dispatch = NewsletterDispatch::new(get_confirmed_subscribers(rows));

    let mut sent = Vec::new();
    while let Some(email) = dispatch.next_recipient() {
        sent.push(email.as_str().to_string());
        dispatch.record_success();
    }
    assert_eq!(sent, vec!["first@example.com", "second@example.com"]);
    assert_eq!(dispatch.attempts(), 2);
    assert!(dispatch.outcome().is_ok());
}

#[test]
fn publish_succeeds_end_to_end_with_valid_auth() {
    // Authorize against the header, validate against the stored hash,
    // then dispatch to both confirmed subscribers.
    let credentials = authorize(basic_header("editor", "strong password")).unwrap();
    assert_eq!(credentials.username, "editor");

    let user_id = Uuid::from_u128(99);
    let stored = StoredCredential {
        user_id,
        password_hash: phc_hash_of("strong password"),
    };
    assert_eq!(
        validate_credentials(credentials, Some(stored)).unwrap(),
        user_id
    );

    let rows = vec!["one@example.com".to_string(), "two@example.com".to_string()];
    let mut dispatch = NewsletterDispatch::new(get_confirmed_subscribers(rows));
    let mut sent = Vec::new();
    while let Some(email) = dispatch.next_recipient() {
        sent.push(email.as_str().to_string());
        dispatch.record_success();
    }
    assert_eq!(sent, vec!["one@example.com", "two@example.com"]);
    assert!(dispatch.outcome().is_ok());
}

#[test]
fn missing_header_maps_to_401_with_challenge() {
    let error = authorize(None).unwrap_err();
    assert_eq!(
        error,
        PublishError::AuthError(AuthCause::Header(BasicAuthError::MissingHeader))
    );
    assert_eq!(error.status_code(), 401);
    assert_eq!(www_authenticate_value(), "Basic realm=\"publish\"");
}

#[test]
fn body_data_holds_title_and_content() {
    let body = BodyData {
        title: "Newsletter title".to_string(),
        content: Content {
            html: "<p>Newsletter body as HTML</p>".to_string(),
            text: "Newsletter body as plain text".to_string(),
        },
    };
    assert_eq!(body.title, "Newsletter title");
    assert_eq!(body.content.html, "<p>Newsletter body as HTML</p>");
    assert_eq!(body.content.text, "Newsletter body as plain text");
}

#[test]
fn extraction_failures_surface_as_auth_errors() {
    // Whatever is wrong with the header — scheme, encoding, or payload —
    // the publish pipeline answers with an authentication error, never an
    // unexpected one.
    let bad_headers = vec![
        None,
        Some(b"Bearer dXNlcjpwYXNz".to_vec()),
        Some(b"Basic !!!".to_vec()),
        Some(b"Basic dXNlcg==".to_vec()),
    ];
    for header in bad_headers {
        let error = authorize(header).unwrap_err();
        assert!(matches!(error, PublishError::AuthError(AuthCause::Header(_))));
        assert_eq!(error.status_code(), 401);
    }
}

#[test]
fn unexpected_errors_map_to_500() {
    let error = PublishError::UnexpectedError(UnexpectedCause::SubscriberQueryFailed);
    assert_eq!(error.status_code(), 500);
}

#[test]
fn error_chain_renders_the_cause() {
    let error = PublishError::AuthError(AuthCause::Header(BasicAuthError::MissingHeader));
    assert_eq!(
        error.error_chain(),
        "Authentication failed.\nCaused by:\n\tThe 'Authorization' header was missing"
    );

    let error = PublishError::AuthError(AuthCause::InvalidCredentials);
    assert_eq!(
        error.error_chain(),
        "Authentication failed.\nCaused by:\n\tInvalid username or password."
    );
}

#[test]
fn send_failure_names_the_recipient() {
    let rows = vec!["lost@example.com".to_string()];
    let mut dispatch = NewsletterDispatch::new(get_confirmed_subscribers(rows));
    assert!(dispatch.next_recipient().is_some());
    dispatch.record_failure();
    let error = dispatch.outcome().unwrap_err();
    assert_eq!(
        error.error_chain(),
        "Failed to send newsletter issue to lost@example.com"
    );
}

//! Tests for credential validation against stored password hashes.

use argon2::password_hash::SaltString;
use argon2::{Argon2, PasswordHasher};
use uuid::Uuid;
use zero2prod::authentication::validate_credentials;
use zero2prod::publish::{AuthCause, PublishError, UnexpectedCause};
use zero2prod::{Credentials, StoredCredential};

fn phc_hash_of(password: &str) -> String {
    let salt = SaltString::from_b64("c29tZXNhbHRzdHJpbmc").unwrap();
    Argon2::default()
        .hash_password(password.as_bytes(), &salt)
        .unwrap()
        .to_string()
}

fn credentials(username: &str, password: &str) -> Credentials {
    Credentials {
        username: username.to_string(),
        password: password.to_string(),
    }
}

#[test]
fn known_user_with_correct_password_is_authenticated() {
    let user_id = Uuid::from_u128(42);
    let stored = StoredCredential {
        user_id,
        password_hash: phc_hash_of("correct horse"),
    };
    let result = validate_credentials(credentials("alice", "correct horse"), Some(stored));
    assert_eq!(result.unwrap(), user_id);
}

#[test]
fn wrong_password_and_unknown_user_fail_alike() {
    let stored = StoredCredential {
        user_id: Uuid::from_u128(42),
        password_hash: phc_hash_of("correct horse"),
    };
    let wrong_password = validate_credentials(credentials("alice", "guess"), Some(stored));
    let unknown_user = validate_credentials(credentials("mallory", "guess"), None);

    let wrong_password = wrong_password.unwrap_err();
    let unknown_user = unknown_user.unwrap_err();
    assert_eq!(wrong_password, unknown_user);
    assert_eq!(
        wrong_password,
        PublishError::AuthError(AuthCause::InvalidCredentials)
    );
}

#[test]
fn unknown_user_never_authenticates_even_with_fallback_hash() {
    // Whatever password is offered, an absent stored credential can only
    // produce an authentication failure, never a user id.
    let result = validate_credentials(credentials("mallory", "anything at all"), None);
    assert!(matches!(
        result.unwrap_err(),
        PublishError::AuthError(AuthCause::InvalidCredentials)
    ));
}

#[test]
fn malformed_stored_hash_is_an_unexpected_error() {
    let stored = StoredCredential {
        user_id: Uuid::from_u128(7),
        password_hash: "not a PHC string".to_string(),
    };
    let result = validate_credentials(credentials("alice", "whatever"), Some(stored));
    assert_eq!(
        result.unwrap_err(),
        PublishError::UnexpectedError(UnexpectedCause::BadPasswordHash)
    );
}

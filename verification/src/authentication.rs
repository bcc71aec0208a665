//! Validation of extracted credentials against a stored password hash,
//! with a fixed-cost policy that keeps response latency from revealing
//! whether a username exists.

use vstd::prelude::*;

use crate::basic_auth::Credentials;
use crate::publish::{spec_authorize, AuthCause, PublishError, UnexpectedCause};

use argon2::PasswordVerifier;

verus! {

#[verifier::external_type_specification]
#[verifier::external_body]
pub struct ExUuid(uuid::Uuid);

/// The record the user store holds for a username: an opaque identifier
/// and a PHC-formatted password hash. Read-only for this crate.
pub struct StoredCredential {
    pub user_id: uuid::Uuid,
    pub password_hash: String,
}

/// The three outcomes of checking a candidate password against a stored
/// PHC hash string.
#[derive(Clone, Copy, PartialEq, Eq, Debug)]
enum HashCheck {
    /// The hash parsed and the candidate password matches it.
    Match,
    /// The hash parsed and the candidate password does not match it.
    Mismatch,
    /// The stored hash is not a well-formed PHC string.
    Unparsable,
}

/// Whether `argon2::PasswordHash::new` accepts the string as a PHC hash.
/// Parsing is a function of the characters alone.
pub uninterp spec fn phc_parses(phc: Seq<char>) -> bool;

/// Whether `Argon2::verify_password` accepts the password against the
/// (parseable) PHC hash string. The hash's own algorithm and parameters
/// make the outcome a function of the two arguments alone.
pub uninterp spec fn argon2_matches(password: Seq<char>, phc: Seq<char>) -> bool;

/// Relies on `argon2::PasswordHash::new` and `Argon2::verify_password`:
/// the parsed hash borrows the string, so the parse and the check stand in
/// one call. Parsing fails exactly on malformed PHC strings; on a parsed
/// hash, verification recomputes the hash with the parameters and salt the
/// string itself carries, so both outcomes are functions of the arguments
/// alone. Deliberately expensive: a memory-hard hash runs on every call.
#[verifier::external_body]
fn check_password_hash(candidate: &str, phc: &str) -> (r: HashCheck)
    ensures
        (r is Unparsable) == !phc_parses(phc@),
        phc_parses(phc@) ==> ((r is Match) == argon2_matches(candidate@, phc@)),
{
    match argon2::PasswordHash::new(phc) {
        Err(_) => HashCheck::Unparsable,
        Ok(parsed) => match argon2::Argon2::default().verify_password(candidate.as_bytes(), &parsed) {
            Ok(()) => HashCheck::Match,
            Err(_) => HashCheck::Mismatch,
        },
    }
}

/// The fallback hash checked when a username is unknown, so that the
/// expensive verification runs exactly once on every authentication
/// attempt. A fixed, well-formed PHC string that no password is expected
/// to match.
pub open spec fn spec_dummy_hash() -> Seq<char> {
    "$argon2id$v=19$m=15000,t=2,p=1$gZiV/M1gPc22ElAH/Jh1Hw$CWOrkoo7oJBQ/iyh7uJ0LO2aLEfrHwTWllSAxT0zRno"@
}

fn dummy_password_hash() -> (r: &'static str)
    ensures
        r@ == spec_dummy_hash(),
{
    "$argon2id$v=19$m=15000,t=2,p=1$gZiV/M1gPc22ElAH/Jh1Hw$CWOrkoo7oJBQ/iyh7uJ0LO2aLEfrHwTWllSAxT0zRno"
}

/// The hash that validation checks the password against: the stored one
/// for a known username, the fixed fallback hash for an unknown one.
pub open spec fn spec_checked_hash(stored: Option<StoredCredential>) -> Seq<char> {
    match stored {
        Some(sc) => sc.password_hash@,
        None => spec_dummy_hash(),
    }
}

/// The outcome of validating a password against an optional stored
/// credential: the stored user id exactly when the username was found and
/// the password matches its hash; an authentication error that does not
/// distinguish "unknown username" from "wrong password"; or an unexpected
/// error when the checked hash is malformed.
pub open spec fn spec_validate_credentials(password: Seq<char>, stored: Option<StoredCredential>) -> Result<
    uuid::Uuid,
    PublishError,
> {
    let phc = spec_checked_hash(stored);
    if !phc_parses(phc) {
        Err(PublishError::UnexpectedError(UnexpectedCause::BadPasswordHash))
    } else if !argon2_matches(password, phc) {
        Err(PublishError::AuthError(AuthCause::InvalidCredentials))
    } else {
        match stored {
            Some(sc) => Ok(sc.user_id),
            None => Err(PublishError::AuthError(AuthCause::InvalidCredentials)),
        }
    }
}

/// Validates the extracted credentials against the result of the user
/// store lookup.
///
/// The expensive hash check runs exactly once on every call, against the
/// stored hash for a known username and against the fixed fallback hash
/// for an unknown one, so both paths cost the same wall-clock time. The
/// caller is expected to run this on an execution context suited to
/// CPU-bound work, off the cooperative request scheduler.
pub fn validate_credentials(credentials: Credentials, stored: Option<StoredCredential>) -> (r: Result<
    uuid::Uuid,
    PublishError,
>)
    ensures
        r == spec_validate_credentials(credentials.password@, stored),
{
    let outcome = match &stored {
        Some(sc) => check_password_hash(credentials.password.as_str(), sc.password_hash.as_str()),
        None => check_password_hash(credentials.password.as_str(), dummy_password_hash()),
    };
    match outcome {
        HashCheck::Unparsable => Err(PublishError::UnexpectedError(UnexpectedCause::BadPasswordHash)),
        HashCheck::Mismatch => Err(PublishError::AuthError(AuthCause::InvalidCredentials)),
        HashCheck::Match => match stored {
            Some(sc) => Ok(sc.user_id),
            None => Err(PublishError::AuthError(AuthCause::InvalidCredentials)),
        },
    }
}

/// Law: a known username with a parseable stored hash and a matching
/// password authenticates as exactly the stored user id.
pub proof fn lemma_known_user_correct_password(password: Seq<char>, sc: StoredCredential)
    requires
        phc_parses(sc.password_hash@),
        argon2_matches(password, sc.password_hash@),
    ensures
        spec_validate_credentials(password, Some(sc)) == Ok::<uuid::Uuid, PublishError>(sc.user_id),
{
}

/// The outcome of the whole authentication step — extraction, lookup and
/// verification — where `stored` is what the user store returned for the
/// extracted username.
pub open spec fn spec_authenticate(header: Option<Seq<u8>>, stored: Option<StoredCredential>) -> Result<
    uuid::Uuid,
    PublishError,
> {
    match spec_authorize(header) {
        Err(e) => Err(e),
        Ok(credentials) => spec_validate_credentials(credentials.1, stored),
    }
}

/// Law: authentication succeeds only for an extractable header whose
/// password matches the parseable stored hash of a known username, and
/// then yields the stored user id; and on exactly those inputs success is
/// owed.
pub proof fn lemma_authenticate_success(header: Option<Seq<u8>>, stored: Option<StoredCredential>)
    ensures
        match spec_authenticate(header, stored) {
            Ok(user_id) => {
                &&& spec_authorize(header) is Ok
                &&& stored matches Some(sc) && user_id == sc.user_id && phc_parses(sc.password_hash@)
                    && argon2_matches(spec_authorize(header)->Ok_0.1, sc.password_hash@)
            },
            Err(_) => true,
        },
        (spec_authorize(header) is Ok && stored is Some && phc_parses(stored->Some_0.password_hash@)
            && argon2_matches(spec_authorize(header)->Ok_0.1, stored->Some_0.password_hash@))
            ==> spec_authenticate(header, stored) == Ok::<uuid::Uuid, PublishError>(stored->Some_0.user_id),
{
}

/// Law: an unknown username never authenticates, whatever the header
/// holds — even a password that happens to match the fallback hash is
/// refused.
pub proof fn lemma_unknown_user_never_authenticates(header: Option<Seq<u8>>)
    ensures
        spec_authenticate(header, None::<StoredCredential>) is Err,
{
}

/// Law: a known username with a wrong password and an unknown username
/// fail with the same error value, so the response content cannot be used
/// to enumerate usernames. The hypothesis that the fallback hash parses
/// reflects that it is a fixed, well-formed PHC string.
pub proof fn lemma_auth_failure_indistinguishable(password: Seq<char>, sc: StoredCredential)
    requires
        phc_parses(sc.password_hash@),
        !argon2_matches(password, sc.password_hash@),
        phc_parses(spec_dummy_hash()),
    ensures
        spec_validate_credentials(password, Some(sc)) == spec_validate_credentials(
            password,
            None::<StoredCredential>,
        ),
        spec_validate_credentials(password, None::<StoredCredential>) == Err::<uuid::Uuid, PublishError>(
            PublishError::AuthError(AuthCause::InvalidCredentials),
        ),
{
}

} // verus!

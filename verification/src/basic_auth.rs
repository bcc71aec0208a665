//! Extraction of HTTP Basic credentials from an `Authorization` header.

use vstd::prelude::*;
use vstd::string::*;
use vstd::utf8::{decode_utf8, valid_utf8};

verus! {

/// A username/password pair extracted from one request; it lives only for
/// the duration of a single authentication attempt.
#[derive(Debug)]
pub struct Credentials {
    pub username: String,
    pub password: String,
}

/// Why extraction of Basic credentials from the `Authorization` header failed.
///
/// The scheme splits the decoded payload on the first colon only, so a
/// (possibly empty) username segment is always present; only the password
/// segment can be absent.
#[derive(Clone, Copy, PartialEq, Eq, Debug)]
pub enum BasicAuthError {
    /// No `Authorization` header was supplied.
    MissingHeader,
    /// The header value is not valid UTF-8 text.
    InvalidEncoding,
    /// The header value does not start with the `Basic ` scheme prefix.
    UnsupportedScheme,
    /// The payload after the scheme prefix is not valid standard Base64.
    BadBase64,
    /// The Base64-decoded payload is not valid UTF-8 text.
    InvalidUtf8,
    /// The decoded payload has no username segment.
    MissingUsername,
    /// The decoded payload has no colon, so no password segment.
    MissingPassword,
}

impl BasicAuthError {
    /// The human-readable description of the failure.
    pub open spec fn spec_message(&self) -> Seq<char> {
        match self {
            BasicAuthError::MissingHeader => "The 'Authorization' header was missing"@,
            BasicAuthError::InvalidEncoding => "The 'Authorization' header was not a valid UTF8 string."@,
            BasicAuthError::UnsupportedScheme => "The authorization scheme was not 'Basic'."@,
            BasicAuthError::BadBase64 => "Failed to base64-decode 'Basic' credentials."@,
            BasicAuthError::InvalidUtf8 => "The decoded credential string is not valid UTF8."@,
            BasicAuthError::MissingUsername => "A username must be provided in 'Basic' auth."@,
            BasicAuthError::MissingPassword => "A password must be provided in 'Basic' auth."@,
        }
    }

    /// Describes the failure, as [`Self::spec_message`] states it.
    pub fn message(&self) -> (r: &'static str)
        ensures
            r@ == self.spec_message(),
    {
        match self {
            BasicAuthError::MissingHeader => "The 'Authorization' header was missing",
            BasicAuthError::InvalidEncoding => "The 'Authorization' header was not a valid UTF8 string.",
            BasicAuthError::UnsupportedScheme => "The authorization scheme was not 'Basic'.",
            BasicAuthError::BadBase64 => "Failed to base64-decode 'Basic' credentials.",
            BasicAuthError::InvalidUtf8 => "The decoded credential string is not valid UTF8.",
            BasicAuthError::MissingUsername => "A username must be provided in 'Basic' auth.",
            BasicAuthError::MissingPassword => "A password must be provided in 'Basic' auth.",
        }
    }
}

/// What `base64::decode_config` with the standard alphabet returns: `Some`
/// with the decoded bytes on well-formed Base64 input, `None` otherwise.
/// The result is a function of the input characters alone.
pub uninterp spec fn base64_decode_of(s: Seq<char>) -> Option<Seq<u8>>;

/// Relies on `base64::decode_config` with `base64::STANDARD`: decoding is
/// deterministic in the input, succeeding exactly on well-formed standard
/// Base64. The callee's decoded-length estimate stays within `usize` for
/// any string that fits in memory.
#[verifier::external_body]
fn decode_base64(s: &str) -> (r: Option<Vec<u8>>)
    ensures
        match r {
            Some(bytes) => base64_decode_of(s@) == Some(bytes@),
            None => base64_decode_of(s@) is None,
        },
{
    match base64::decode_config(s, base64::STANDARD) {
        Ok(bytes) => Some(bytes),
        Err(_) => None,
    }
}

/// Relies on `String::from_utf8`: it succeeds exactly when the bytes are a
/// valid UTF-8 encoding, and the returned string holds the decoded
/// characters, as `vstd::utf8` specifies them.
#[verifier::external_body]
fn utf8_to_string(bytes: Vec<u8>) -> (r: Option<String>)
    ensures
        match r {
            Some(s) => valid_utf8(bytes@) && s@ == decode_utf8(bytes@),
            None => !valid_utf8(bytes@),
        },
{
    match String::from_utf8(bytes) {
        Ok(s) => Some(s),
        Err(_) => None,
    }
}

/// The scheme prefix `Basic ` stands at the front of the header text.
pub open spec fn spec_basic_prefix(s: Seq<char>) -> bool {
    &&& s.len() >= 6
    &&& s[0] == 'B'
    &&& s[1] == 'a'
    &&& s[2] == 's'
    &&& s[3] == 'i'
    &&& s[4] == 'c'
    &&& s[5] == ' '
}

/// `i` is the position of the first colon in `s`.
pub open spec fn is_first_colon(s: Seq<char>, i: int) -> bool {
    &&& 0 <= i < s.len()
    &&& s[i] == ':'
    &&& forall|j: int| 0 <= j < i ==> s[j] != ':'
}

/// Some colon occurs in `s`.
pub open spec fn has_colon(s: Seq<char>) -> bool {
    exists|i: int| 0 <= i < s.len() && s[i] == ':'
}

/// The position of the first colon in `s`, provided one occurs.
pub open spec fn first_colon_of(s: Seq<char>) -> int {
    choose|i: int| is_first_colon(s, i)
}

proof fn lemma_first_colon(s: Seq<char>, i: int)
    requires
        is_first_colon(s, i),
    ensures
        has_colon(s),
        first_colon_of(s) == i,
{
    let k = first_colon_of(s);
    assert(is_first_colon(s, k));
    if k < i {
        assert(s[k] != ':');
    } else if i < k {
        assert(s[i] != ':');
    }
}

/// What extraction yields on a given `Authorization` header value: the
/// username and password character sequences, or the reason for rejection.
///
/// The header must be UTF-8 text starting with `Basic `; the remainder must
/// decode as standard Base64 into UTF-8 text, which is split on its first
/// colon only — a password may itself contain colons.
pub open spec fn spec_extract(header: Option<Seq<u8>>) -> Result<(Seq<char>, Seq<char>), BasicAuthError> {
    match header {
        None => Err(BasicAuthError::MissingHeader),
        Some(raw) => if !valid_utf8(raw) {
            Err(BasicAuthError::InvalidEncoding)
        } else {
            let text = decode_utf8(raw);
            if !spec_basic_prefix(text) {
                Err(BasicAuthError::UnsupportedScheme)
            } else {
                match base64_decode_of(text.subrange(6, text.len() as int)) {
                    None => Err(BasicAuthError::BadBase64),
                    Some(decoded) => if !valid_utf8(decoded) {
                        Err(BasicAuthError::InvalidUtf8)
                    } else {
                        let payload = decode_utf8(decoded);
                        if !has_colon(payload) {
                            Err(BasicAuthError::MissingPassword)
                        } else {
                            let i = first_colon_of(payload);
                            Ok((payload.subrange(0, i), payload.subrange(i + 1, payload.len() as int)))
                        }
                    },
                }
            }
        },
    }
}

/// The byte sequences held by an optional header value.
pub open spec fn spec_header_bytes(header: Option<Vec<u8>>) -> Option<Seq<u8>> {
    match header {
        None => None,
        Some(v) => Some(v@),
    }
}

/// Parses the raw `Authorization` header value into Basic credentials,
/// exactly as [`spec_extract`] describes.
#[verifier::loop_isolation(false)]
pub fn basic_authentication(header: Option<Vec<u8>>) -> (r: Result<Credentials, BasicAuthError>)
    ensures
        match r {
            Ok(c) => spec_extract(spec_header_bytes(header)) == Ok::<(Seq<char>, Seq<char>), BasicAuthError>((c.username@, c.password@)),
            Err(e) => spec_extract(spec_header_bytes(header)) == Err::<(Seq<char>, Seq<char>), BasicAuthError>(e),
        },
{
    let raw = match header {
        None => {
            return Err(BasicAuthError::MissingHeader);
        },
        Some(v) => v,
    };
    let text = match utf8_to_string(raw) {
        None => {
            return Err(BasicAuthError::InvalidEncoding);
        },
        Some(s) => s,
    };
    let text_len = text.as_str().unicode_len();
    if text_len < 6 || text.as_str().get_char(0) != 'B' || text.as_str().get_char(1) != 'a'
        || text.as_str().get_char(2) != 's' || text.as_str().get_char(3) != 'i'
        || text.as_str().get_char(4) != 'c' || text.as_str().get_char(5) != ' ' {
        return Err(BasicAuthError::UnsupportedScheme);
    }
    let segment = text.as_str().substring_char(6, text_len);
    let decoded = match decode_base64(segment) {
        None => {
            return Err(BasicAuthError::BadBase64);
        },
        Some(bytes) => bytes,
    };
    let payload = match utf8_to_string(decoded) {
        None => {
            return Err(BasicAuthError::InvalidUtf8);
        },
        Some(s) => s,
    };
    let payload_len = payload.as_str().unicode_len();
    let mut i: usize = 0;
    while i < payload_len
        invariant
            payload_len == payload@.len(),
            i <= payload_len,
            forall|j: int| 0 <= j < i ==> payload@[j] != ':',
        decreases payload_len - i,
    {
        if payload.as_str().get_char(i) == ':' {
            let username = payload.as_str().substring_char(0, i).to_owned();
            let password = payload.as_str().substring_char(i + 1, payload_len).to_owned();
            proof {
                lemma_first_colon(payload@, i as int);
            }
            return Ok(Credentials { username, password });
        }
        i += 1;
    }
    Err(BasicAuthError::MissingPassword)
}

} // verus!

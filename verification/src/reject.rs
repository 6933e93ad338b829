//! The structured rejection returned when a header fails to decode, and the
//! builders that map each failure kind to its status, body text and optional
//! `WWW-Authenticate` challenge.

use vstd::prelude::*;

verus! {

/// Mathematical view of a [`Rejection`]: the status code, the body text as a
/// character sequence, and the optional challenge header value.
#[verifier::ext_equal]
pub ghost struct RejectionModel {
    pub status: u16,
    pub body: Seq<char>,
    pub challenge: Option<Seq<char>>,
}

/// A failed decode, ready to be rendered as an HTTP response: status code,
/// plain-text body, and an optional `WWW-Authenticate` challenge value.
#[derive(Debug, Clone, PartialEq, Eq)]
pub struct Rejection {
    pub status: u16,
    pub body: String,
    pub challenge: Option<String>,
}

impl View for Rejection {
    type V = RejectionModel;

    open spec fn view(&self) -> RejectionModel {
        RejectionModel {
            status: self.status,
            body: self.body@,
            challenge: match self.challenge {
                Some(c) => Some(c@),
                None => None,
            },
        }
    }
}

/// Body text reported when the `Authorization` header is absent.
pub open spec fn missing_message() -> Seq<char> {
    "`Authorization` header is missing"@
}

/// Body text reported when the header value is not valid UTF-8.
pub open spec fn invalid_chars_message() -> Seq<char> {
    "`Authorization` header contains invalid characters"@
}

/// Body text reported when the Basic payload cannot be decoded.
pub open spec fn decode_failed_message() -> Seq<char> {
    "`Authorization` header could not be decoded"@
}

/// Body text reported when the Basic decoder sees another scheme.
pub open spec fn wrong_scheme_basic_message() -> Seq<char> {
    "`Authorization` header must be for basic authentication"@
}

/// Body text reported when the Bearer decoder sees another scheme.
pub open spec fn wrong_scheme_bearer_message() -> Seq<char> {
    "`Authorization` header must be a bearer token"@
}

/// Challenge value attached to missing-header rejections. It names the Basic
/// scheme even on the Bearer path: a documented quirk kept as it stands.
pub open spec fn basic_challenge() -> Seq<char> {
    "Basic"@
}

/// Rejection for a missing header: the only kind that carries a challenge.
pub open spec fn missing_rejection(status: u16) -> RejectionModel {
    RejectionModel { status, body: missing_message(), challenge: Some(basic_challenge()) }
}

/// Rejection for a header value that is not valid UTF-8.
pub open spec fn invalid_chars_rejection(status: u16) -> RejectionModel {
    RejectionModel { status, body: invalid_chars_message(), challenge: None }
}

/// Rejection for a Basic payload that fails base64 or UTF-8 decoding.
pub open spec fn decode_failed_rejection(status: u16) -> RejectionModel {
    RejectionModel { status, body: decode_failed_message(), challenge: None }
}

/// Rejection for a header that does not carry the Basic scheme.
pub open spec fn wrong_scheme_basic_rejection(status: u16) -> RejectionModel {
    RejectionModel { status, body: wrong_scheme_basic_message(), challenge: None }
}

/// Rejection for a header that does not carry the Bearer scheme.
pub open spec fn wrong_scheme_bearer_rejection(status: u16) -> RejectionModel {
    RejectionModel { status, body: wrong_scheme_bearer_message(), challenge: None }
}

/// Build the missing-header rejection, challenge included.
pub fn build_missing_rejection(status: u16) -> (r: Rejection)
    ensures
        r@ == missing_rejection(status),
{
    Rejection {
        status,
        body: "`Authorization` header is missing".to_owned(),
        challenge: Some("Basic".to_owned()),
    }
}

/// Build the invalid-characters rejection.
pub fn build_invalid_chars_rejection(status: u16) -> (r: Rejection)
    ensures
        r@ == invalid_chars_rejection(status),
{
    Rejection {
        status,
        body: "`Authorization` header contains invalid characters".to_owned(),
        challenge: None,
    }
}

/// Build the decode-failed rejection.
pub fn build_decode_failed_rejection(status: u16) -> (r: Rejection)
    ensures
        r@ == decode_failed_rejection(status),
{
    Rejection {
        status,
        body: "`Authorization` header could not be decoded".to_owned(),
        challenge: None,
    }
}

/// Build the wrong-scheme rejection of the Basic decoder.
pub fn build_wrong_scheme_basic_rejection(status: u16) -> (r: Rejection)
    ensures
        r@ == wrong_scheme_basic_rejection(status),
{
    Rejection {
        status,
        body: "`Authorization` header must be for basic authentication".to_owned(),
        challenge: None,
    }
}

/// Build the wrong-scheme rejection of the Bearer decoder.
pub fn build_wrong_scheme_bearer_rejection(status: u16) -> (r: Rejection)
    ensures
        r@ == wrong_scheme_bearer_rejection(status),
{
    Rejection {
        status,
        body: "`Authorization` header must be a bearer token".to_owned(),
        challenge: None,
    }
}

/// The legacy two-field error form: a status code and a fixed message.
pub type OldRejection = (u16, &'static str);

/// Adapt the legacy two-field error form into the structured rejection: the
/// status is copied, the message becomes the body, and no challenge is set.
pub fn rejection_from_old(old: OldRejection) -> (r: Rejection)
    ensures
        r@ == (RejectionModel { status: old.0, body: old.1@, challenge: None }),
{
    Rejection { status: old.0, body: old.1.to_owned(), challenge: None }
}

} // verus!

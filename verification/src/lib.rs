//! Verified decoding of HTTP `Authorization` credentials.
//!
//! The crate turns the raw `Authorization` header of a request into either
//! typed credentials (Basic user-id and password, or a Bearer token) or a
//! structured [`reject::Rejection`] carrying the HTTP status code, the body
//! text, and an optional `WWW-Authenticate` challenge header.

use vstd::prelude::*;

pub mod base64;
pub mod basic;
pub mod bearer;
pub mod headers;
pub mod laws;
pub mod reject;
pub mod text;

use crate::basic::{basic_decode_spec, basic_result_model, BasicCredentials, BasicModel};
use crate::bearer::{bearer_decode_spec, bearer_result_model};
use crate::headers::{authorization_of, get_header, header_text_spec};
use crate::reject::{Rejection, RejectionModel};

verus! {

/// Status code used by the standard (non-custom) decoders on every failure.
pub const DEFAULT_ERROR_STATUS: u16 = 401;

/// What the Basic pipeline yields for a request whose `Authorization` bytes
/// are `auth`: the accessor's classification first, then the Basic decoder.
/// The first failed check decides; at most one rejection arises.
pub open spec fn basic_from_header_spec(auth: Option<Seq<u8>>, status: u16) -> Result<
    BasicModel,
    RejectionModel,
> {
    match header_text_spec(auth, status) {
        Err(r) => Err(r),
        Ok(t) => basic_decode_spec(t, status),
    }
}

/// What the Bearer pipeline yields, in the same sequence.
pub open spec fn bearer_from_header_spec(auth: Option<Seq<u8>>, status: u16) -> Result<
    Seq<char>,
    RejectionModel,
> {
    match header_text_spec(auth, status) {
        Err(r) => Err(r),
        Ok(t) => bearer_decode_spec(t, status),
    }
}

/// Decode Basic credentials from a request's headers, with `status` used on
/// every failure kind of this call.
pub fn decode_basic_custom(headers: &http::HeaderMap, status: u16) -> (r: Result<
    BasicCredentials,
    Rejection,
>)
    ensures
        basic_result_model(r) == basic_from_header_spec(authorization_of(*headers), status),
{
    let text = match get_header(headers, status) {
        Ok(s) => s,
        Err(rej) => {
            return Err(rej);
        },
    };
    basic::decode_basic_str(text.as_str(), status)
}

/// Decode Basic credentials with the standard failure status of 401.
pub fn decode_basic(headers: &http::HeaderMap) -> (r: Result<BasicCredentials, Rejection>)
    ensures
        basic_result_model(r) == basic_from_header_spec(
            authorization_of(*headers),
            DEFAULT_ERROR_STATUS,
        ),
{
    decode_basic_custom(headers, DEFAULT_ERROR_STATUS)
}

/// Decode a Bearer token from a request's headers, with `status` used on
/// every failure kind of this call.
pub fn decode_bearer_custom(headers: &http::HeaderMap, status: u16) -> (r: Result<
    String,
    Rejection,
>)
    ensures
        bearer_result_model(r) == bearer_from_header_spec(authorization_of(*headers), status),
{
    let text = match get_header(headers, status) {
        Ok(s) => s,
        Err(rej) => {
            return Err(rej);
        },
    };
    bearer::decode_bearer_str(text.as_str(), status)
}

/// Decode a Bearer token with the standard failure status of 401.
pub fn decode_bearer(headers: &http::HeaderMap) -> (r: Result<String, Rejection>)
    ensures
        bearer_result_model(r) == bearer_from_header_spec(
            authorization_of(*headers),
            DEFAULT_ERROR_STATUS,
        ),
{
    decode_bearer_custom(headers, DEFAULT_ERROR_STATUS)
}

} // verus!

//! The header accessor: fetch the raw `Authorization` value from the
//! request's header map and classify the missing-header and invalid-text
//! failures. The lookup itself is the one call into the `http` crate.

use crate::reject::{
    build_invalid_chars_rejection, build_missing_rejection, invalid_chars_rejection,
    missing_rejection, Rejection, RejectionModel,
};
use crate::text::utf8_to_string;
use vstd::prelude::*;
use vstd::utf8::{decode_utf8, valid_utf8};

verus! {

#[verifier::external_type_specification]
#[verifier::external_body]
#[verifier::reject_recursive_types(T)]
pub struct ExHeaderMap<T>(http::HeaderMap<T>);

#[verifier::external_type_specification]
#[verifier::external_body]
pub struct ExHeaderValue(http::HeaderValue);

/// The bytes a header map holds under the `Authorization` name: the first
/// value stored for that name, or `None` when the map holds none.
pub uninterp spec fn authorization_of(headers: http::HeaderMap) -> Option<Seq<u8>>;

/// Relies on `http::HeaderMap::get`: a case-insensitive lookup that returns
/// the first value stored under the name, or `None` when there is none.
#[verifier::external_body]
fn lookup_authorization(headers: &http::HeaderMap) -> (r: Option<Vec<u8>>)
    ensures
        match r {
            Some(v) => authorization_of(*headers) == Some(v@),
            None => authorization_of(*headers) is None,
        },
{
    headers.get(http::header::AUTHORIZATION).map(|value| value.as_bytes().to_vec())
}

/// What the accessor yields for the `Authorization` bytes of a request: the
/// missing-header rejection (the one carrying a challenge) when there are
/// none, the invalid-characters rejection when they are not valid UTF-8, and
/// otherwise the header's text.
pub open spec fn header_text_spec(auth: Option<Seq<u8>>, status: u16) -> Result<
    Seq<char>,
    RejectionModel,
> {
    match auth {
        None => Err(missing_rejection(status)),
        Some(b) => {
            if !valid_utf8(b) {
                Err(invalid_chars_rejection(status))
            } else {
                Ok(decode_utf8(b))
            }
        },
    }
}

/// The view of an accessor result.
pub open spec fn header_result_model(r: Result<String, Rejection>) -> Result<
    Seq<char>,
    RejectionModel,
> {
    match r {
        Ok(s) => Ok(s@),
        Err(e) => Err(e@),
    }
}

/// Fetch the `Authorization` header text, exactly as [`header_text_spec`]
/// describes: the failure status is the caller's `status`.
pub fn get_header(headers: &http::HeaderMap, status: u16) -> (r: Result<String, Rejection>)
    ensures
        header_result_model(r) == header_text_spec(authorization_of(*headers), status),
{
    let bytes = match lookup_authorization(headers) {
        Some(b) => b,
        None => {
            return Err(build_missing_rejection(status));
        },
    };
    match utf8_to_string(bytes) {
        Some(s) => Ok(s),
        None => Err(build_invalid_chars_rejection(status)),
    }
}

} // verus!

//! The Bearer decoder: scheme prefix, then the remainder of the header is
//! the token, taken verbatim.

use crate::reject::{
    build_wrong_scheme_bearer_rejection, wrong_scheme_bearer_rejection, Rejection, RejectionModel,
};
use crate::text::{has_prefix, str_has_prefix};
use vstd::prelude::*;
use vstd::string::StrSliceExecFns;

verus! {

/// The scheme prefix a Bearer header must open with, case-sensitively.
pub open spec fn bearer_prefix() -> Seq<char> {
    "Bearer "@
}

/// What decoding a Bearer header text yields: the wrong-scheme rejection
/// without the prefix; otherwise everything after it — possibly empty, with
/// no further validation of the token's characters.
pub open spec fn bearer_decode_spec(t: Seq<char>, status: u16) -> Result<
    Seq<char>,
    RejectionModel,
> {
    if !has_prefix(t, bearer_prefix()) {
        Err(wrong_scheme_bearer_rejection(status))
    } else {
        Ok(t.skip(bearer_prefix().len() as int))
    }
}

/// The view of a Bearer decode result.
pub open spec fn bearer_result_model(r: Result<String, Rejection>) -> Result<
    Seq<char>,
    RejectionModel,
> {
    match r {
        Ok(token) => Ok(token@),
        Err(e) => Err(e@),
    }
}

/// Decode a header text known to be intended for Bearer authentication,
/// exactly as [`bearer_decode_spec`] describes.
pub fn decode_bearer_str(header: &str, status: u16) -> (r: Result<String, Rejection>)
    ensures
        bearer_result_model(r) == bearer_decode_spec(header@, status),
{
    proof {
        reveal_strlit("Bearer ");
    }
    if !str_has_prefix(header, "Bearer ") {
        return Err(build_wrong_scheme_bearer_rejection(status));
    }
    let n = header.unicode_len();
    let token = header.substring_char(7, n).to_owned();
    proof {
        assert(token@ =~= header@.skip(bearer_prefix().len() as int));
    }
    Ok(token)
}

} // verus!

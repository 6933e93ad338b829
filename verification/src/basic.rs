//! The Basic decoder: scheme prefix, base64 payload, UTF-8 payload text,
//! and the split of the text at its first colon into user-id and password.

use crate::base64::{b64_decode, b64_decode_str};
use crate::reject::{
    build_decode_failed_rejection, build_wrong_scheme_basic_rejection, decode_failed_rejection,
    wrong_scheme_basic_rejection, Rejection, RejectionModel,
};
use crate::text::{
    has_prefix, split_at_first_colon, split_credentials, str_has_prefix, utf8_to_string,
};
use vstd::prelude::*;
use vstd::string::StrSliceExecFns;
use vstd::utf8::{decode_utf8, valid_utf8};

verus! {

/// Mathematical view of [`BasicCredentials`].
#[verifier::ext_equal]
pub ghost struct BasicModel {
    pub user_id: Seq<char>,
    pub password: Option<Seq<char>>,
}

/// Decoded Basic credentials: the user-id, and the password when the payload
/// held a colon. Either part may be empty.
#[derive(Debug, Clone, PartialEq, Eq)]
pub struct BasicCredentials {
    pub user_id: String,
    pub password: Option<String>,
}

impl View for BasicCredentials {
    type V = BasicModel;

    open spec fn view(&self) -> BasicModel {
        BasicModel {
            user_id: self.user_id@,
            password: match self.password {
                Some(p) => Some(p@),
                None => None,
            },
        }
    }
}

/// The scheme prefix a Basic header must open with, case-sensitively.
pub open spec fn basic_prefix() -> Seq<char> {
    "Basic "@
}

/// What decoding a Basic header text yields: the wrong-scheme rejection
/// without the prefix; the decode-failed rejection when the remainder is not
/// well-formed base64 or its bytes are not valid UTF-8; otherwise the
/// credentials split at the first colon of the decoded text.
pub open spec fn basic_decode_spec(t: Seq<char>, status: u16) -> Result<
    BasicModel,
    RejectionModel,
> {
    if !has_prefix(t, basic_prefix()) {
        Err(wrong_scheme_basic_rejection(status))
    } else {
        match b64_decode(t.skip(basic_prefix().len() as int)) {
            None => Err(decode_failed_rejection(status)),
            Some(payload) => {
                if !valid_utf8(payload) {
                    Err(decode_failed_rejection(status))
                } else {
                    let (u, p) = split_at_first_colon(decode_utf8(payload));
                    Ok(BasicModel { user_id: u, password: p })
                }
            },
        }
    }
}

/// The view of a Basic decode result.
pub open spec fn basic_result_model(r: Result<BasicCredentials, Rejection>) -> Result<
    BasicModel,
    RejectionModel,
> {
    match r {
        Ok(c) => Ok(c@),
        Err(e) => Err(e@),
    }
}

/// Decode a header text known to be intended for Basic authentication,
/// exactly as [`basic_decode_spec`] describes.
pub fn decode_basic_str(header: &str, status: u16) -> (r: Result<BasicCredentials, Rejection>)
    ensures
        basic_result_model(r) == basic_decode_spec(header@, status),
{
    proof {
        reveal_strlit("Basic ");
    }
    if !str_has_prefix(header, "Basic ") {
        return Err(build_wrong_scheme_basic_rejection(status));
    }
    let n = header.unicode_len();
    let rem = header.substring_char(6, n);
    proof {
        assert(rem@ =~= header@.skip(basic_prefix().len() as int));
    }
    let payload = match b64_decode_str(rem) {
        Some(p) => p,
        None => {
            return Err(build_decode_failed_rejection(status));
        },
    };
    let text = match utf8_to_string(payload) {
        Some(s) => s,
        None => {
            return Err(build_decode_failed_rejection(status));
        },
    };
    let (user_id, password) = split_credentials(text.as_str());
    Ok(BasicCredentials { user_id, password })
}

} // verus!

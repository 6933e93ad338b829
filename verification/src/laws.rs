//! Laws of the decoders, proved against the same specifications the
//! executable functions are verified against.

use crate::basic::{basic_decode_spec, basic_prefix, basic_result_model, BasicCredentials,
    BasicModel};
use crate::bearer::{bearer_decode_spec, bearer_prefix, bearer_result_model};
use crate::base64::{b64_encode, lemma_b64_roundtrip};
use crate::reject::{Rejection, RejectionModel};
use crate::text::{first_colon_index, has_prefix, lemma_first_colon_index, split_at_first_colon};
use crate::{basic_from_header_spec, bearer_from_header_spec};
use vstd::prelude::*;
use vstd::utf8::{encode_utf8, encode_utf8_decode_utf8, encode_utf8_valid_utf8};

verus! {

/// Every well-formed Basic header built from a user-id and a password comes
/// back as that pair: for a colon-free `user`, decoding
/// `"Basic "` + base64(utf8(`user` + `":"` + `pass`)) yields `user` and
/// `Some(pass)`.
pub proof fn lemma_basic_round_trip_with_password(user: Seq<char>, pass: Seq<char>, status: u16)
    requires
        !user.contains(':'),
    ensures
        basic_decode_spec(
            basic_prefix() + b64_encode(encode_utf8(user + seq![':'] + pass)),
            status,
        ) == Ok::<BasicModel, RejectionModel>(BasicModel { user_id: user, password: Some(pass) }),
{
    let chars = user + seq![':'] + pass;
    let payload = encode_utf8(chars);
    let t = basic_prefix() + b64_encode(payload);
    assert(t.subrange(0, basic_prefix().len() as int) =~= basic_prefix());
    assert(has_prefix(t, basic_prefix()));
    assert(t.skip(basic_prefix().len() as int) =~= b64_encode(payload));
    lemma_b64_roundtrip(payload);
    encode_utf8_valid_utf8(chars);
    encode_utf8_decode_utf8(chars);
    let j = user.len() as int;
    assert forall|i: int| 0 <= i < j implies chars[i] != ':' by {
        assert(chars[i] == user[i]);
        if user[i] == ':' {
            assert(user.contains(':'));
        }
    }
    assert(chars[j] == ':');
    lemma_first_colon_index(chars, j);
    assert(chars.take(j) =~= user);
    assert(chars.skip(j + 1) =~= pass);
}

/// A Basic payload without a colon comes back whole as the user-id, with no
/// password: for a colon-free `user`, decoding
/// `"Basic "` + base64(utf8(`user`)) yields `user` and `None`.
pub proof fn lemma_basic_round_trip_no_password(user: Seq<char>, status: u16)
    requires
        !user.contains(':'),
    ensures
        basic_decode_spec(basic_prefix() + b64_encode(encode_utf8(user)), status)
            == Ok::<BasicModel, RejectionModel>(BasicModel { user_id: user, password: None }),
{
    let payload = encode_utf8(user);
    let t = basic_prefix() + b64_encode(payload);
    assert(t.subrange(0, basic_prefix().len() as int) =~= basic_prefix());
    assert(has_prefix(t, basic_prefix()));
    assert(t.skip(basic_prefix().len() as int) =~= b64_encode(payload));
    lemma_b64_roundtrip(payload);
    encode_utf8_valid_utf8(user);
    encode_utf8_decode_utf8(user);
    assert forall|i: int| 0 <= i < user.len() implies user[i] != ':' by {
        if user[i] == ':' {
            assert(user.contains(':'));
        }
    }
    lemma_first_colon_index(user, user.len() as int);
    assert(first_colon_index(user) == user.len());
    assert(split_at_first_colon(user) == (user, None::<Seq<char>>));
}

/// Every Bearer header gives its token back verbatim, the empty token
/// included: decoding `"Bearer "` + `token` yields `token`.
pub proof fn lemma_bearer_round_trip(token: Seq<char>, status: u16)
    ensures
        bearer_decode_spec(bearer_prefix() + token, status) == Ok::<Seq<char>, RejectionModel>(
            token,
        ),
{
    let t = bearer_prefix() + token;
    assert(t.subrange(0, bearer_prefix().len() as int) =~= bearer_prefix());
    assert(has_prefix(t, bearer_prefix()));
    assert(t.skip(bearer_prefix().len() as int) =~= token);
}

/// Basic decoding is a pure function of the header bytes and the status
/// code: two results obtained from the same input agree. There is no hidden
/// state anywhere in the pipeline.
pub proof fn lemma_basic_decode_deterministic(
    r1: Result<BasicCredentials, Rejection>,
    r2: Result<BasicCredentials, Rejection>,
    auth: Option<Seq<u8>>,
    status: u16,
)
    requires
        basic_result_model(r1) == basic_from_header_spec(auth, status),
        basic_result_model(r2) == basic_from_header_spec(auth, status),
    ensures
        basic_result_model(r1) == basic_result_model(r2),
{
}

/// Bearer decoding is likewise a pure function of its input.
pub proof fn lemma_bearer_decode_deterministic(
    r1: Result<String, Rejection>,
    r2: Result<String, Rejection>,
    auth: Option<Seq<u8>>,
    status: u16,
)
    requires
        bearer_result_model(r1) == bearer_from_header_spec(auth, status),
        bearer_result_model(r2) == bearer_from_header_spec(auth, status),
    ensures
        bearer_result_model(r1) == bearer_result_model(r2),
{
}

} // verus!

//! Character-level text operations the decoders are built from: prefix
//! matching, splitting a decoded payload at its first colon, and the one
//! trusted conversion from bytes to a `String`.

use vstd::prelude::*;
use vstd::string::StrSliceExecFns;
use vstd::utf8::{decode_utf8, valid_utf8};

verus! {

/// `p` is the first `p.len()` characters of `s`.
pub open spec fn has_prefix(s: Seq<char>, p: Seq<char>) -> bool {
    s.len() >= p.len() && s.subrange(0, p.len() as int) == p
}

/// Character-for-character prefix test: true exactly when `p`'s characters
/// open `s`.
pub fn str_has_prefix(s: &str, p: &str) -> (b: bool)
    ensures
        b == has_prefix(s@, p@),
{
    let n = p.unicode_len();
    if s.unicode_len() < n {
        return false;
    }
    let mut i: usize = 0;
    while i < n
        invariant
            i <= n,
            n == p@.len(),
            s@.len() >= n,
            forall|j: int| 0 <= j < i ==> s@[j] == p@[j],
        decreases n - i,
    {
        if s.get_char(i) != p.get_char(i) {
            proof {
                assert(s@.subrange(0, n as int)[i as int] != p@[i as int]);
            }
            return false;
        }
        i += 1;
    }
    proof {
        assert(s@.subrange(0, n as int) =~= p@);
    }
    true
}

/// Index of the first `':'` in `t`, or `t.len()` when there is none.
pub open spec fn first_colon_index(t: Seq<char>) -> int
    decreases t.len(),
{
    if t.len() == 0 {
        0
    } else if t[0] == ':' {
        0
    } else {
        1 + first_colon_index(t.skip(1))
    }
}

/// What `first_colon_index` returns: the position of the first colon, with
/// `t.len()` standing for "no colon anywhere".
pub proof fn lemma_first_colon_index(t: Seq<char>, j: int)
    requires
        0 <= j <= t.len(),
        forall|i: int| 0 <= i < j ==> t[i] != ':',
        j < t.len() ==> t[j] == ':',
        j == t.len() ==> (forall|i: int| 0 <= i < t.len() ==> t[i] != ':'),
    ensures
        first_colon_index(t) == j,
    decreases t.len(),
{
    if t.len() == 0 {
    } else if t[0] == ':' {
        assert(j == 0);
    } else {
        assert(t[0] != ':');
        assert(j >= 1);
        let rest = t.skip(1);
        assert forall|i: int| 0 <= i < j - 1 implies rest[i] != ':' by {
            assert(rest[i] == t[i + 1]);
        }
        if j - 1 < rest.len() {
            assert(rest[j - 1] == t[j]);
        }
        lemma_first_colon_index(rest, j - 1);
    }
}

/// Split at the first colon: the part before it, and — when a colon exists —
/// everything after it. Without a colon the whole text is the first part.
pub open spec fn split_at_first_colon(t: Seq<char>) -> (Seq<char>, Option<Seq<char>>) {
    let j = first_colon_index(t);
    if j == t.len() {
        (t, None)
    } else {
        (t.take(j), Some(t.skip(j + 1)))
    }
}

/// Split the decoded payload at its first `':'`: the left part is the
/// user-id; the right part, when a colon exists, is the password — even when
/// either side is empty. Later colons stay inside the password.
pub fn split_credentials(s: &str) -> (r: (String, Option<String>))
    ensures
        ({
            let (u, p) = split_at_first_colon(s@);
            &&& r.0@ == u
            &&& match r.1 {
                Some(pw) => p == Some(pw@),
                None => p is None,
            }
        }),
{
    let n = s.unicode_len();
    let mut j: usize = 0;
    while j < n
        invariant
            j <= n,
            n == s@.len(),
            forall|i: int| 0 <= i < j ==> s@[i] != ':',
        decreases n - j,
    {
        if s.get_char(j) == ':' {
            proof {
                lemma_first_colon_index(s@, j as int);
            }
            let user = s.substring_char(0, j).to_owned();
            let pass = s.substring_char(j + 1, n).to_owned();
            proof {
                assert(s@.subrange(0, j as int) =~= s@.take(j as int));
                assert(s@.subrange(j + 1, n as int) =~= s@.skip(j + 1));
            }
            return (user, Some(pass));
        }
        j += 1;
    }
    proof {
        lemma_first_colon_index(s@, n as int);
    }
    (s.to_owned(), None)
}

/// Relies on `String::from_utf8`: it returns `Ok` exactly on valid UTF-8
/// input, and then yields the characters those bytes encode.
#[verifier::external_body]
pub fn utf8_to_string(bytes: Vec<u8>) -> (r: Option<String>)
    ensures
        match r {
            Some(s) => valid_utf8(bytes@) && s@ == decode_utf8(bytes@),
            None => !valid_utf8(bytes@),
        },
{
    String::from_utf8(bytes).ok()
}

} // verus!

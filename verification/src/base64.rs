//! Base64 decoding of the Basic payload: standard alphabet, padding
//! required, `'='` only in the final four-character block, and canonical
//! padding (unused trailing bits must be zero).
//!
//! The decoder is written against a recursive specification; an encoding
//! specification and a round-trip proof tie the two together.

use vstd::prelude::*;
use vstd::string::StrSliceExecFns;

verus! {

/// Value of a standard-alphabet base64 character; `None` for anything else,
/// the padding mark `'='` included.
pub open spec fn b64_char_value(c: char) -> Option<u8> {
    let x = c as u32;
    if 65 <= x <= 90 {  // 'A'..='Z'
        Some((x - 65) as u8)
    } else if 97 <= x <= 122 {  // 'a'..='z'
        Some((x - 71) as u8)
    } else if 48 <= x <= 57 {  // '0'..='9'
        Some((x + 4) as u8)
    } else if x == 43 {  // '+'
        Some(62u8)
    } else if x == 47 {  // '/'
        Some(63u8)
    } else {
        None
    }
}

/// The padding mark.
pub open spec fn is_pad(c: char) -> bool {
    c == '='
}

/// First decoded byte of a block: all of the first value, top bits of the
/// second.
pub open spec fn b64_byte0(v0: u8, v1: u8) -> u8 {
    (v0 * 4 + v1 / 16) as u8
}

/// Second decoded byte of a block.
pub open spec fn b64_byte1(v1: u8, v2: u8) -> u8 {
    ((v1 % 16) * 16 + v2 / 4) as u8
}

/// Third decoded byte of a block.
pub open spec fn b64_byte2(v2: u8, v3: u8) -> u8 {
    ((v2 % 4) * 64 + v3) as u8
}

/// Decoding of the final four-character block, where padding may stand: two
/// pads yield one byte, one pad yields two, none yields three. Unused bits
/// of the last value must be zero.
pub open spec fn b64_decode_last_block(c0: char, c1: char, c2: char, c3: char) -> Option<
    Seq<u8>,
> {
    match (b64_char_value(c0), b64_char_value(c1)) {
        (Some(v0), Some(v1)) => {
            if is_pad(c2) && is_pad(c3) {
                if v1 % 16 == 0 {
                    Some(seq![b64_byte0(v0, v1)])
                } else {
                    None
                }
            } else if is_pad(c3) {
                match b64_char_value(c2) {
                    Some(v2) => {
                        if v2 % 4 == 0 {
                            Some(seq![b64_byte0(v0, v1), b64_byte1(v1, v2)])
                        } else {
                            None
                        }
                    },
                    None => None,
                }
            } else {
                match (b64_char_value(c2), b64_char_value(c3)) {
                    (Some(v2), Some(v3)) => Some(
                        seq![b64_byte0(v0, v1), b64_byte1(v1, v2), b64_byte2(v2, v3)],
                    ),
                    _ => None,
                }
            }
        },
        _ => None,
    }
}

/// Base64 decoding of a whole text: blocks of four characters, padding only
/// in the last one, `None` on any ill-formed input (wrong length, a
/// character outside the alphabet, misplaced padding, nonzero unused bits).
pub open spec fn b64_decode(s: Seq<char>) -> Option<Seq<u8>>
    decreases s.len(),
{
    if s.len() == 0 {
        Some(Seq::empty())
    } else if s.len() < 4 {
        None
    } else if s.len() == 4 {
        b64_decode_last_block(s[0], s[1], s[2], s[3])
    } else {
        match (b64_char_value(s[0]), b64_char_value(s[1]), b64_char_value(s[2]), b64_char_value(
            s[3],
        )) {
            (Some(v0), Some(v1), Some(v2), Some(v3)) => match b64_decode(s.skip(4)) {
                Some(rest) => Some(
                    seq![b64_byte0(v0, v1), b64_byte1(v1, v2), b64_byte2(v2, v3)] + rest,
                ),
                None => None,
            },
            _ => None,
        }
    }
}

/// Standard-alphabet character for a six-bit value.
pub open spec fn b64_char_of(v: u8) -> char
    recommends
        v < 64,
{
    if v < 26 {
        ((v + 65) as u8) as char
    } else if v < 52 {
        ((v + 71) as u8) as char
    } else if v < 62 {
        ((v - 4) as u8) as char
    } else if v == 62 {
        '+'
    } else {
        '/'
    }
}

/// Base64 encoding: three bytes to a block of four characters, the last
/// block padded with `'='` as needed.
pub open spec fn b64_encode(bytes: Seq<u8>) -> Seq<char>
    decreases bytes.len(),
{
    if bytes.len() == 0 {
        Seq::empty()
    } else if bytes.len() == 1 {
        let b0 = bytes[0];
        seq![b64_char_of((b0 / 4) as u8), b64_char_of(((b0 % 4) * 16) as u8), '=', '=']
    } else if bytes.len() == 2 {
        let b0 = bytes[0];
        let b1 = bytes[1];
        seq![
            b64_char_of((b0 / 4) as u8),
            b64_char_of(((b0 % 4) * 16 + b1 / 16) as u8),
            b64_char_of(((b1 % 16) * 4) as u8),
            '=',
        ]
    } else {
        let b0 = bytes[0];
        let b1 = bytes[1];
        let b2 = bytes[2];
        seq![
            b64_char_of((b0 / 4) as u8),
            b64_char_of(((b0 % 4) * 16 + b1 / 16) as u8),
            b64_char_of(((b1 % 16) * 4 + b2 / 64) as u8),
            b64_char_of((b2 % 64) as u8),
        ] + b64_encode(bytes.skip(3))
    }
}

/// An alphabet character decodes back to its six-bit value, and is never the
/// padding mark.
pub proof fn lemma_b64_char_roundtrip(v: u8)
    requires
        v < 64,
    ensures
        b64_char_value(b64_char_of(v)) == Some(v),
        !is_pad(b64_char_of(v)),
{
}

/// Splitting a byte into six-bit values and reassembling it gives the byte
/// back.
proof fn lemma_b64_bytes_roundtrip(b0: u8, b1: u8, b2: u8)
    ensures
        b64_byte0((b0 / 4) as u8, ((b0 % 4) * 16 + b1 / 16) as u8) == b0,
        b64_byte1(((b0 % 4) * 16 + b1 / 16) as u8, ((b1 % 16) * 4 + b2 / 64) as u8) == b1,
        b64_byte2(((b1 % 16) * 4 + b2 / 64) as u8, (b2 % 64) as u8) == b2,
{
}

/// The encoding of a non-empty byte sequence holds at least one block.
proof fn lemma_b64_encode_len(bytes: Seq<u8>)
    ensures
        bytes.len() == 0 ==> b64_encode(bytes).len() == 0,
        bytes.len() > 0 ==> b64_encode(bytes).len() >= 4,
    decreases bytes.len(),
{
    if bytes.len() > 3 {
        lemma_b64_encode_len(bytes.skip(3));
    }
}

/// Decoding inverts encoding: every byte sequence comes back unchanged from
/// its base64 text.
#[verifier::rlimit(100)]
pub proof fn lemma_b64_roundtrip(bytes: Seq<u8>)
    ensures
        b64_decode(b64_encode(bytes)) == Some(bytes),
    decreases bytes.len(),
{
    if bytes.len() == 0 {
        assert(bytes =~= Seq::<u8>::empty());
    } else if bytes.len() == 1 {
        let b0 = bytes[0];
        let v0 = (b0 / 4) as u8;
        let v1 = ((b0 % 4) * 16) as u8;
        lemma_b64_char_roundtrip(v0);
        lemma_b64_char_roundtrip(v1);
        lemma_b64_bytes_roundtrip(b0, 0, 0);
        let e = b64_encode(bytes);
        assert(v1 % 16 == 0);
        assert(b64_decode(e) == Some(seq![b64_byte0(v0, v1)]));
        assert(seq![b0] =~= bytes);
    } else if bytes.len() == 2 {
        let b0 = bytes[0];
        let b1 = bytes[1];
        let v0 = (b0 / 4) as u8;
        let v1 = ((b0 % 4) * 16 + b1 / 16) as u8;
        let v2 = ((b1 % 16) * 4) as u8;
        lemma_b64_char_roundtrip(v0);
        lemma_b64_char_roundtrip(v1);
        lemma_b64_char_roundtrip(v2);
        lemma_b64_bytes_roundtrip(b0, b1, 0);
        let e = b64_encode(bytes);
        assert(v2 % 4 == 0);
        assert(b64_decode(e) == Some(seq![b64_byte0(v0, v1), b64_byte1(v1, v2)]));
        assert(seq![b0, b1] =~= bytes);
    } else {
        let b0 = bytes[0];
        let b1 = bytes[1];
        let b2 = bytes[2];
        let v0 = (b0 / 4) as u8;
        let v1 = ((b0 % 4) * 16 + b1 / 16) as u8;
        let v2 = ((b1 % 16) * 4 + b2 / 64) as u8;
        let v3 = (b2 % 64) as u8;
        lemma_b64_char_roundtrip(v0);
        lemma_b64_char_roundtrip(v1);
        lemma_b64_char_roundtrip(v2);
        lemma_b64_char_roundtrip(v3);
        lemma_b64_bytes_roundtrip(b0, b1, b2);
        let rest = bytes.skip(3);
        let block = seq![b64_char_of(v0), b64_char_of(v1), b64_char_of(v2), b64_char_of(v3)];
        let e = b64_encode(bytes);
        assert(e == block + b64_encode(rest));
        lemma_b64_encode_len(rest);
        if bytes.len() == 3 {
            assert(e =~= block);
            assert(b64_decode(e) == b64_decode_last_block(e[0], e[1], e[2], e[3]));
            assert(b64_decode(e) == Some(
                seq![b64_byte0(v0, v1), b64_byte1(v1, v2), b64_byte2(v2, v3)],
            ));
            assert(seq![b0, b1, b2] =~= bytes);
        } else {
            lemma_b64_roundtrip(rest);
            assert(e.len() > 4);
            assert(e[0] == block[0] && e[1] == block[1] && e[2] == block[2] && e[3] == block[3]);
            assert(e.skip(4) =~= b64_encode(rest));
            assert(b64_decode(e.skip(4)) == Some(rest));
            assert(b64_decode(e) == Some(
                seq![b64_byte0(v0, v1), b64_byte1(v1, v2), b64_byte2(v2, v3)] + rest,
            ));
            assert(seq![b0, b1, b2] + rest =~= bytes);
        }
    }
}

/// Exact value of a base64 character, mirroring [`b64_char_value`].
fn b64_value(c: char) -> (r: Option<u8>)
    ensures
        r == b64_char_value(c),
{
    let x = c as u32;
    if 65 <= x && x <= 90 {
        Some((x - 65) as u8)
    } else if 97 <= x && x <= 122 {
        Some((x - 71) as u8)
    } else if 48 <= x && x <= 57 {
        Some((x + 4) as u8)
    } else if x == 43 {
        Some(62)
    } else if x == 47 {
        Some(63)
    } else {
        None
    }
}

/// Decode a base64 text, exactly as [`b64_decode`] describes: `Some` of the
/// bytes on well-formed input, `None` otherwise.
pub fn b64_decode_str(s: &str) -> (r: Option<Vec<u8>>)
    ensures
        match r {
            Some(v) => b64_decode(s@) == Some(v@),
            None => b64_decode(s@) is None,
        },
{
    let ghost t = s@;
    let n = s.unicode_len();
    let mut out: Vec<u8> = Vec::new();
    let mut i: usize = 0;
    proof {
        assert(t.skip(0) =~= t);
        if b64_decode(t) is Some {
            assert(Seq::<u8>::empty() + b64_decode(t).unwrap() =~= b64_decode(t).unwrap());
        }
    }
    while n - i > 4
        invariant
            i <= n,
            n == t.len(),
            t == s@,
            (b64_decode(t.skip(i as int)) matches Some(rest) ==> b64_decode(t) == Some(
                out@ + rest,
            )),
            (b64_decode(t.skip(i as int)) is None ==> b64_decode(t) is None),
        decreases n - i,
    {
        let c0 = s.get_char(i);
        let c1 = s.get_char(i + 1);
        let c2 = s.get_char(i + 2);
        let c3 = s.get_char(i + 3);
        proof {
            let u = t.skip(i as int);
            assert(u.len() == n - i > 4);
            assert(u[0] == t[i as int]);
            assert(u[1] == t[i as int + 1]);
            assert(u[2] == t[i as int + 2]);
            assert(u[3] == t[i as int + 3]);
        }
        let (v0, v1, v2, v3) = match (b64_value(c0), b64_value(c1), b64_value(c2), b64_value(
            c3,
        )) {
            (Some(v0), Some(v1), Some(v2), Some(v3)) => (v0, v1, v2, v3),
            _ => {
                proof {
                    assert(b64_decode(t.skip(i as int)) is None);
                }
                return None;
            },
        };
        let b0: u8 = v0 * 4 + v1 / 16;
        let b1: u8 = (v1 % 16) * 16 + v2 / 4;
        let b2: u8 = (v2 % 4) * 64 + v3;
        let ghost old_out = out@;
        out.push(b0);
        out.push(b1);
        out.push(b2);
        proof {
            let u = t.skip(i as int);
            assert(u.skip(4) =~= t.skip(i as int + 4));
            assert(out@ =~= old_out + seq![b64_byte0(v0, v1), b64_byte1(v1, v2), b64_byte2(
                v2,
                v3,
            )]);
            if b64_decode(t.skip(i as int + 4)) is Some {
                let rest = b64_decode(t.skip(i as int + 4)).unwrap();
                assert(b64_decode(u) == Some(
                    seq![b64_byte0(v0, v1), b64_byte1(v1, v2), b64_byte2(v2, v3)] + rest,
                ));
                assert(old_out + (seq![b64_byte0(v0, v1), b64_byte1(v1, v2), b64_byte2(v2, v3)]
                    + rest) =~= out@ + rest);
            }
        }
        i += 4;
    }
    if i == n {
        proof {
            assert(t.skip(i as int) =~= Seq::<char>::empty());
            assert(b64_decode(t.skip(i as int)) == Some(Seq::<u8>::empty()));
            assert(out@ + Seq::<u8>::empty() =~= out@);
        }
        return Some(out);
    }
    if n - i < 4 {
        proof {
            assert(0 < t.skip(i as int).len() < 4);
            assert(b64_decode(t.skip(i as int)) is None);
        }
        return None;
    }
    // Exactly one four-character block remains: the final one.
    let c0 = s.get_char(i);
    let c1 = s.get_char(i + 1);
    let c2 = s.get_char(i + 2);
    let c3 = s.get_char(i + 3);
    proof {
        let u = t.skip(i as int);
        assert(u.len() == 4);
        assert(u[0] == t[i as int]);
        assert(u[1] == t[i as int + 1]);
        assert(u[2] == t[i as int + 2]);
        assert(u[3] == t[i as int + 3]);
        assert(b64_decode(u) == b64_decode_last_block(t[i as int], t[i as int + 1], t[i as int
            + 2], t[i as int + 3]));
    }
    let v0 = match b64_value(c0) {
        Some(v) => v,
        None => {
            return None;
        },
    };
    let v1 = match b64_value(c1) {
        Some(v) => v,
        None => {
            return None;
        },
    };
    if c2 == '=' && c3 == '=' {
        if v1 % 16 != 0 {
            return None;
        }
        let ghost before = out@;
        out.push(v0 * 4 + v1 / 16);
        proof {
            assert(b64_decode(t.skip(i as int)) == Some(seq![b64_byte0(v0, v1)]));
            assert(out@ =~= before + seq![b64_byte0(v0, v1)]);
        }
        Some(out)
    } else if c3 == '=' {
        let v2 = match b64_value(c2) {
            Some(v) => v,
            None => {
                return None;
            },
        };
        if v2 % 4 != 0 {
            return None;
        }
        let ghost before = out@;
        out.push(v0 * 4 + v1 / 16);
        out.push((v1 % 16) * 16 + v2 / 4);
        proof {
            assert(b64_decode(t.skip(i as int)) == Some(
                seq![b64_byte0(v0, v1), b64_byte1(v1, v2)],
            ));
            assert(out@ =~= before + seq![b64_byte0(v0, v1), b64_byte1(v1, v2)]);
        }
        Some(out)
    } else {
        let v2 = match b64_value(c2) {
            Some(v) => v,
            None => {
                return None;
            },
        };
        let v3 = match b64_value(c3) {
            Some(v) => v,
            None => {
                return None;
            },
        };
        let ghost before = out@;
        out.push(v0 * 4 + v1 / 16);
        out.push((v1 % 16) * 16 + v2 / 4);
        out.push((v2 % 4) * 64 + v3);
        proof {
            assert(b64_decode(t.skip(i as int)) == Some(
                seq![b64_byte0(v0, v1), b64_byte1(v1, v2), b64_byte2(v2, v3)],
            ));
            assert(out@ =~= before + seq![b64_byte0(v0, v1), b64_byte1(v1, v2), b64_byte2(
                v2,
                v3,
            )]);
        }
        Some(out)
    }
}

} // verus!

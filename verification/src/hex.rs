//! Hexadecimal strings.
//!
//! The block-data provider hands previous-output ids and unlocking scripts
//! to the indexer as hexadecimal strings. This module gives the decoding an
//! exact mathematical meaning ([`hex_bytes`]) and a verified executable
//! decoder, together with the round-trip facts that make the decoding
//! lossless.

use vstd::prelude::*;

verus! {

/// True iff `c` is an ASCII hexadecimal digit.
pub open spec fn is_hex_digit(c: char) -> bool {
    (48 <= c as u32 && c as u32 <= 57)  // '0'..='9'
    || (97 <= c as u32 && c as u32 <= 102)  // 'a'..='f'
    || (65 <= c as u32 && c as u32 <= 70)  // 'A'..='F'
}

/// The numeric value of the hexadecimal digit `c`.
pub open spec fn hex_digit_value(c: char) -> u8 {
    if 48 <= c as u32 && c as u32 <= 57 {
        ((c as u32) - 48) as u8
    } else if 97 <= c as u32 && c as u32 <= 102 {
        ((c as u32) - 87) as u8
    } else {
        ((c as u32) - 55) as u8
    }
}

/// The byte written as the two hexadecimal digits `hi`, `lo`.
pub open spec fn hex_pair_value(hi: char, lo: char) -> u8 {
    (hex_digit_value(hi) * 16 + hex_digit_value(lo)) as u8
}

/// Every character of `s` is a hexadecimal digit.
pub open spec fn all_hex(s: Seq<char>) -> bool {
    forall|i: int| 0 <= i < s.len() ==> is_hex_digit(#[trigger] s[i])
}

/// The bytes encoded by the hexadecimal string `s`: each pair of digits,
/// high digit first, gives one byte. A trailing unpaired digit encodes
/// nothing; well-formed inputs have even length.
pub open spec fn hex_bytes(s: Seq<char>) -> Seq<u8> {
    Seq::new((s.len() / 2) as nat, |k: int| hex_pair_value(s[2 * k], s[2 * k + 1]))
}

/// The lowercase hexadecimal digit with value `v`.
pub open spec fn hex_digit_char(v: u8) -> char {
    if v < 10 {
        ((v + 48) as u8) as char
    } else {
        ((v + 87) as u8) as char
    }
}

/// The lowercase hexadecimal encoding of the bytes `b`.
pub open spec fn hex_of_bytes(b: Seq<u8>) -> Seq<char> {
    Seq::new(
        b.len() * 2,
        |i: int|
            if i % 2 == 0 {
                hex_digit_char(b[i / 2] / 16)
            } else {
                hex_digit_char(b[i / 2] % 16)
            },
    )
}

/// The numeric value of one hexadecimal digit, or `None` for any other
/// character.
pub fn hex_digit(c: char) -> (r: Option<u8>)
    ensures
        r is Some <==> is_hex_digit(c),
        r matches Some(v) ==> v == hex_digit_value(c) && v < 16,
{
    let u = c as u32;
    if 48 <= u && u <= 57 {
        Some((u - 48) as u8)
    } else if 97 <= u && u <= 102 {
        Some((u - 87) as u8)
    } else if 65 <= u && u <= 70 {
        Some((u - 55) as u8)
    } else {
        None
    }
}

/// Decodes the characters of `s` from character position `start` to the end
/// as hexadecimal. Fails exactly when the remainder has odd length or holds
/// a character that is not a hexadecimal digit.
pub fn decode_hex_from(s: &str, start: usize) -> (r: Option<Vec<u8>>)
    requires
        start <= s@.len(),
    ensures
        r is Some <==> ((s@.len() - start) % 2 == 0 && all_hex(s@.skip(start as int))),
        r matches Some(v) ==> v@ == hex_bytes(s@.skip(start as int)),
{
    let n = s.unicode_len();
    if (n - start) % 2 != 0 {
        assert((s@.len() - start) % 2 != 0);
        return None;
    }
    let mut out: Vec<u8> = Vec::new();
    let mut i: usize = start;
    while i < n
        invariant
            n == s@.len(),
            start <= i <= n,
            (i - start) % 2 == 0,
            (n - start) % 2 == 0,
            out@ =~= hex_bytes(s@.subrange(start as int, i as int)),
            forall|k: int| start <= k < i ==> is_hex_digit(#[trigger] s@[k]),
        decreases n - i,
    {
        let hi = hex_digit(s.get_char(i));
        let lo = hex_digit(s.get_char(i + 1));
        match (hi, lo) {
            (Some(h), Some(l)) => {
                out.push(h * 16 + l);
                proof {
                    let pre = s@.subrange(start as int, i as int);
                    let post = s@.subrange(start as int, i + 2 as int);
                    assert(hex_bytes(post).len() == hex_bytes(pre).len() + 1);
                    assert forall|k: int| 0 <= k < hex_bytes(post).len() implies hex_bytes(
                        post,
                    )[k] == out@[k] by {
                        assert(post[2 * k] == s@[start + 2 * k]);
                        assert(post[2 * k + 1] == s@[start + 2 * k + 1]);
                        if k < hex_bytes(pre).len() {
                            assert(pre[2 * k] == s@[start + 2 * k]);
                            assert(pre[2 * k + 1] == s@[start + 2 * k + 1]);
                        }
                    }
                    assert(out@ =~= hex_bytes(post));
                }
                i = i + 2;
            },
            _ => {
                proof {
                    let rest = s@.skip(start as int);
                    if !is_hex_digit(s@[i as int]) {
                        assert(rest[i - start] == s@[i as int]);
                        assert(!all_hex(rest));
                    } else {
                        assert(rest[i + 1 - start] == s@[i + 1 as int]);
                        assert(!all_hex(rest));
                    }
                }
                return None;
            },
        }
    }
    proof {
        assert(s@.subrange(start as int, n as int) =~= s@.skip(start as int));
        assert forall|k: int| 0 <= k < s@.skip(start as int).len() implies is_hex_digit(
            #[trigger] s@.skip(start as int)[k],
        ) by {
            assert(s@.skip(start as int)[k] == s@[start + k]);
        }
    }
    Some(out)
}

/// Decoding inverts encoding: the bytes read back from the lowercase
/// hexadecimal encoding of `b` are exactly `b`. With
/// [`lemma_hex_canonical`], the hex transform loses no information.
pub proof fn lemma_hex_round_trip(b: Seq<u8>)
    ensures
        hex_of_bytes(b).len() == 2 * b.len(),
        all_hex(hex_of_bytes(b)),
        hex_bytes(hex_of_bytes(b)) =~= b,
{
    let s = hex_of_bytes(b);
    assert forall|i: int| 0 <= i < s.len() implies is_hex_digit(#[trigger] s[i]) by {
        if i % 2 == 0 {
            lemma_hex_digit_char_value(b[i / 2] / 16);
        } else {
            lemma_hex_digit_char_value(b[i / 2] % 16);
        }
    }
    assert forall|k: int| 0 <= k < hex_bytes(s).len() implies hex_bytes(s)[k] == b[k] by {
        assert(s[2 * k] == hex_digit_char(b[k] / 16));
        assert(s[2 * k + 1] == hex_digit_char(b[k] % 16));
        lemma_hex_digit_char_value(b[k] / 16);
        lemma_hex_digit_char_value(b[k] % 16);
        assert(hex_pair_value(s[2 * k], s[2 * k + 1]) == (b[k] / 16) * 16 + b[k] % 16);
    }
}

/// Encoding inverts decoding on canonical (even-length, lowercase) input:
/// re-encoding the decoded bytes gives back the same string.
pub proof fn lemma_hex_canonical(s: Seq<char>)
    requires
        s.len() % 2 == 0,
        forall|i: int| 0 <= i < s.len() ==> is_lower_hex_digit(#[trigger] s[i]),
    ensures
        hex_of_bytes(hex_bytes(s)) =~= s,
{
    let b = hex_bytes(s);
    assert forall|i: int| 0 <= i < hex_of_bytes(b).len() implies hex_of_bytes(b)[i] == s[i] by {
        let k = i / 2;
        assert(b[k] == hex_pair_value(s[2 * k], s[2 * k + 1]));
        let h = hex_digit_value(s[2 * k]);
        let l = hex_digit_value(s[2 * k + 1]);
        assert(h < 16 && l < 16);
        assert((h * 16 + l) / 16 == h);
        assert((h * 16 + l) % 16 == l);
        if i % 2 == 0 {
            assert(i == 2 * k);
            lemma_lower_hex_digit_char(s[2 * k]);
        } else {
            assert(i == 2 * k + 1);
            lemma_lower_hex_digit_char(s[2 * k + 1]);
        }
    }
}

/// True iff `c` is a lowercase (canonical) hexadecimal digit.
pub open spec fn is_lower_hex_digit(c: char) -> bool {
    (48 <= c as u32 && c as u32 <= 57) || (97 <= c as u32 && c as u32 <= 102)
}

/// `hex_digit_char` is the left inverse of `hex_digit_value` on lowercase
/// digits.
proof fn lemma_lower_hex_digit_char(c: char)
    requires
        is_lower_hex_digit(c),
    ensures
        hex_digit_char(hex_digit_value(c)) == c,
{
}

/// `hex_digit_value` is the left inverse of `hex_digit_char` for values
/// below 16.
proof fn lemma_hex_digit_char_value(v: u8)
    requires
        v < 16,
    ensures
        is_hex_digit(hex_digit_char(v)),
        hex_digit_value(hex_digit_char(v)) == v,
        is_lower_hex_digit(hex_digit_char(v)),
{
}

} // verus!

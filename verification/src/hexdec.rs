//! Hex strings: decoding, optional `0x` prefixes, and private keys.

use vstd::prelude::*;
use crate::KeyParseError;

verus! {

/// Is `b` the ASCII code of a hex digit?
pub open spec fn is_hex_digit(b: u8) -> bool {
    (48 <= b <= 57) || (97 <= b <= 102) || (65 <= b <= 70)
}

/// Numeric value of an ASCII hex digit.
pub open spec fn hex_digit_val(b: u8) -> nat {
    if 48 <= b <= 57 {
        (b - 48) as nat
    } else if 97 <= b <= 102 {
        (b - 87) as nat
    } else {
        (b - 55) as nat
    }
}

/// Can `s` be decoded as hex: an even number of hex digits?
pub open spec fn hex_ok(s: Seq<u8>) -> bool {
    s.len() % 2 == 0 && (forall|i: int| 0 <= i < s.len() ==> is_hex_digit(s[i]))
}

/// The byte written as the two hex digits `hi` then `lo`.
pub open spec fn hex_byte(hi: u8, lo: u8) -> u8 {
    (hex_digit_val(hi) * 16 + hex_digit_val(lo)) as u8
}

/// The bytes written by a string of hex digit pairs.
pub open spec fn spec_hex_decode(s: Seq<u8>) -> Seq<u8>
    decreases s.len(),
{
    if s.len() < 2 {
        Seq::empty()
    } else {
        spec_hex_decode(s.drop_last().drop_last()).push(
            hex_byte(s[s.len() - 2], s[s.len() - 1]),
        )
    }
}

/// `s` without a leading `0x`, if it has one.
pub open spec fn strip_0x(s: Seq<u8>) -> Seq<u8> {
    if s.len() >= 2 && s[0] == 48 && s[1] == 120 {
        s.subrange(2, s.len() as int)
    } else {
        s
    }
}

/// The key bytes denoted by a private key string: hex with an optional
/// `0x` prefix.
pub open spec fn spec_parse_key(s: Seq<u8>) -> Option<Seq<u8>> {
    if hex_ok(strip_0x(s)) {
        Some(spec_hex_decode(strip_0x(s)))
    } else {
        None
    }
}

/// Numeric value of one hex digit, or `None` if `b` is not one.
pub fn hex_val(b: u8) -> (r: Option<u8>)
    ensures
        r is Some <==> is_hex_digit(b),
        r is Some ==> r->0 == hex_digit_val(b) && r->0 < 16,
{
    if 48 <= b && b <= 57 {
        Some(b - 48)
    } else if 97 <= b && b <= 102 {
        Some(b - 87)
    } else if 65 <= b && b <= 70 {
        Some(b - 55)
    } else {
        None
    }
}

/// Decode a string of hex digit pairs into bytes.
pub fn hex_decode(s: &[u8]) -> (r: Option<Vec<u8>>)
    ensures
        r is Some <==> hex_ok(s@),
        r is Some ==> r->0@ == spec_hex_decode(s@),
{
    if s.len() % 2 != 0 {
        return None;
    }
    let mut out: Vec<u8> = Vec::new();
    let mut i: usize = 0;
    while i < s.len()
        invariant
            i % 2 == 0,
            i <= s@.len(),
            s@.len() % 2 == 0,
            out@ == spec_hex_decode(s@.subrange(0, i as int)),
            forall|j: int| 0 <= j < i ==> is_hex_digit(s@[j]),
        decreases s@.len() - i,
    {
        let hi = match hex_val(s[i]) {
            Some(v) => v,
            None => {
                return None;
            },
        };
        let lo = match hex_val(s[i + 1]) {
            Some(v) => v,
            None => {
                return None;
            },
        };
        out.push(hi * 16 + lo);
        proof {
            let pre = s@.subrange(0, i + 2);
            assert(pre.drop_last().drop_last() =~= s@.subrange(0, i as int));
            assert(pre[pre.len() - 2] == s@[i as int]);
            assert(pre[pre.len() - 1] == s@[i + 1]);
            assert(hex_byte(s@[i as int], s@[i + 1]) == hi * 16 + lo);
        }
        i = i + 2;
    }
    proof {
        assert(s@.subrange(0, s@.len() as int) =~= s@);
    }
    Some(out)
}

/// The hex part of a key string: everything after an optional `0x`.
pub fn strip_0x_prefix(s: &[u8]) -> (r: &[u8])
    ensures
        r@ == strip_0x(s@),
{
    if s.len() >= 2 && s[0] == 48 && s[1] == 120 {
        let (_, rest) = s.split_at(2);
        proof {
            assert(rest@ =~= s@.subrange(2, s@.len() as int));
        }
        rest
    } else {
        s
    }
}

/// A string of hex digit pairs decodes to half as many bytes.
pub proof fn lemma_hex_decode_len(s: Seq<u8>)
    requires
        s.len() % 2 == 0,
    ensures
        spec_hex_decode(s).len() == s.len() / 2,
    decreases s.len(),
{
    if s.len() >= 2 {
        lemma_hex_decode_len(s.drop_last().drop_last());
    }
}

/// Parse a private key given as hex, with or without a `0x` prefix,
/// into its key bytes.
pub fn parse_private_key(s: &[u8]) -> (r: Result<Vec<u8>, KeyParseError>)
    ensures
        r is Ok <==> spec_parse_key(s@) is Some,
        r is Ok ==> Some(r->Ok_0@) == spec_parse_key(s@),
        r is Err ==> r->Err_0 == KeyParseError::MalformedHex,
{
    let stripped = strip_0x_prefix(s);
    match hex_decode(stripped) {
        Some(bytes) => Ok(bytes),
        None => Err(KeyParseError::MalformedHex),
    }
}

/// A `0x` prefix does not change what a key string denotes: a string of
/// hex digits and the same string prefixed by `0x` parse to identical
/// key bytes, hence to the same signing identity.
pub proof fn lemma_key_prefix_irrelevant(h: Seq<u8>)
    requires
        forall|i: int| 0 <= i < h.len() ==> is_hex_digit(h[i]),
    ensures
        spec_parse_key(seq![48u8, 120u8] + h) == spec_parse_key(h),
{
    let p = seq![48u8, 120u8] + h;
    assert(p.subrange(2, p.len() as int) =~= h);
    if h.len() >= 2 {
        assert(is_hex_digit(h[1]));
        assert(h[1] != 120);
    }
    assert(strip_0x(h) =~= h);
}

} // verus!

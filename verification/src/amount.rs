//! Decimal amounts with a unit name, converted exactly to wei.
//!
//! A user-supplied amount is a decimal digit string with at most one
//! dot. The unit name selects a power-of-ten multiplier; the fractional
//! part must not be finer than one wei, so the conversion is exact.

use vstd::prelude::*;
use crate::digits::{is_digit, seq_val, pow10};
use crate::AmountParseError;

verus! {

/// A non-negative integer number of wei, kept as its decimal digit
/// string (ASCII, most significant digit first).
#[derive(Debug)]
pub struct Amount {
    /// ASCII decimal digits of the value, most significant first.
    pub digits: Vec<u8>,
}

impl Amount {
    /// The digit string is non-empty and holds only decimal digits.
    pub open spec fn wf(self) -> bool {
        self.digits@.len() >= 1 && (forall|i: int|
            0 <= i < self.digits@.len() ==> is_digit(self.digits@[i]))
    }

    /// The number of wei this amount denotes.
    pub open spec fn value(self) -> nat {
        seq_val(self.digits@)
    }
}

impl Clone for Amount {
    fn clone(&self) -> (r: Self)
        ensures
            r.digits@ == self.digits@,
    {
        let mut out: Vec<u8> = Vec::new();
        let mut i: usize = 0;
        while i < self.digits.len()
            invariant
                i <= self.digits@.len(),
                out@ == self.digits@.subrange(0, i as int),
            decreases self.digits@.len() - i,
        {
            out.push(self.digits[i]);
            proof {
                assert(out@ =~= self.digits@.subrange(0, i + 1));
            }
            i = i + 1;
        }
        proof {
            assert(self.digits@.subrange(0, self.digits@.len() as int) =~= self.digits@);
        }
        Amount { digits: out }
    }
}

/// Every byte of `s` is a decimal digit or a dot.
pub open spec fn all_amount_bytes(s: Seq<u8>) -> bool {
    forall|i: int| 0 <= i < s.len() ==> is_digit(s[i]) || s[i] == 46
}

/// Does `s` contain a dot?
pub open spec fn has_dot(s: Seq<u8>) -> bool
    decreases s.len(),
{
    if s.len() == 0 {
        false
    } else {
        s.last() == 46 || has_dot(s.drop_last())
    }
}

/// Does `s` contain at most one dot?
pub open spec fn at_most_one_dot(s: Seq<u8>) -> bool
    decreases s.len(),
{
    if s.len() == 0 {
        true
    } else {
        (s.last() == 46 ==> !has_dot(s.drop_last())) && at_most_one_dot(s.drop_last())
    }
}

/// The digits of `s`, in order, with any dot removed.
pub open spec fn digit_seq(s: Seq<u8>) -> Seq<u8>
    decreases s.len(),
{
    if s.len() == 0 {
        Seq::empty()
    } else if is_digit(s.last()) {
        digit_seq(s.drop_last()).push(s.last())
    } else {
        digit_seq(s.drop_last())
    }
}

/// How many digits of `s` stand after its dot.
pub open spec fn frac_len(s: Seq<u8>) -> nat
    decreases s.len(),
{
    if s.len() == 0 {
        0
    } else if s.last() == 46 {
        0
    } else if has_dot(s.drop_last()) {
        frac_len(s.drop_last()) + 1
    } else {
        0
    }
}

/// Is `s` a well-formed decimal amount: only digits and at most one
/// dot, with at least one digit?
pub open spec fn well_formed_amount(s: Seq<u8>) -> bool {
    all_amount_bytes(s) && at_most_one_dot(s) && digit_seq(s).len() >= 1
}

/// The number of wei denoted by the amount string `s` under a unit of
/// `dec` decimals, or `None` if `s` is malformed or finer than one wei.
pub open spec fn spec_parse_amount(s: Seq<u8>, dec: u32) -> Option<nat> {
    if well_formed_amount(s) && frac_len(s) <= dec {
        Some(seq_val(digit_seq(s)) * pow10((dec - frac_len(s)) as nat))
    } else {
        None
    }
}

/// A well-formed prefix is broken by nothing that follows: if a prefix
/// of `s` already holds two dots, so does `s`.
proof fn lemma_at_most_one_dot_prefix(s: Seq<u8>, i: int)
    requires
        0 <= i <= s.len(),
        at_most_one_dot(s),
    ensures
        at_most_one_dot(s.subrange(0, i)),
    decreases s.len(),
{
    if i == s.len() {
        assert(s.subrange(0, i) =~= s);
    } else {
        assert(s.drop_last().subrange(0, i) =~= s.subrange(0, i));
        lemma_at_most_one_dot_prefix(s.drop_last(), i);
    }
}

/// A whole-number amount, one without a dot, converts to its digits'
/// value times the unit's full power of ten: exactly the multiplier
/// table, with no rounding.
pub proof fn lemma_whole_amount_uses_full_multiplier(s: Seq<u8>, dec: u32)
    requires
        well_formed_amount(s),
        !has_dot(s),
    ensures
        frac_len(s) == 0,
        spec_parse_amount(s, dec) == Some(seq_val(digit_seq(s)) * pow10(dec as nat)),
{
}

/// Lowercase of one ASCII byte.
pub open spec fn lower_byte(b: u8) -> u8 {
    if 65 <= b <= 90 {
        (b + 32) as u8
    } else {
        b
    }
}

/// Lowercase of an ASCII byte string.
pub open spec fn lower_seq(s: Seq<u8>) -> Seq<u8> {
    s.map_values(|b: u8| lower_byte(b))
}

/// The number of decimals a unit name stands for, or `None` if the
/// name, compared without regard to ASCII case, is not in the table.
pub open spec fn spec_unit_decimals(u: Seq<u8>) -> Option<u32> {
    let l = lower_seq(u);
    // "eth", "ether"
    if l == seq![101u8, 116u8, 104u8] || l == seq![101u8, 116u8, 104u8, 101u8, 114u8] {
        Some(18u32)
    } else if l == seq![112u8, 119u8, 101u8, 105u8]  // "pwei", "milli", "milliether", "finney"
        || l == seq![109u8, 105u8, 108u8, 108u8, 105u8] || l
        == seq![109u8, 105u8, 108u8, 108u8, 105u8, 101u8, 116u8, 104u8, 101u8, 114u8] || l == seq![102u8, 105u8, 110u8, 110u8, 101u8, 121u8] {
        Some(15u32)
    } else if l == seq![116u8, 119u8, 101u8, 105u8]  // "twei", "micro", "microether", "szabo"
        || l == seq![109u8, 105u8, 99u8, 114u8, 111u8] || l
        == seq![109u8, 105u8, 99u8, 114u8, 111u8, 101u8, 116u8, 104u8, 101u8, 114u8] || l == seq![115u8, 122u8, 97u8, 98u8, 111u8] {
        Some(12u32)
    } else if l == seq![103u8, 119u8, 101u8, 105u8]  // "gwei", "nano", "nanoether", "shannon"
        || l == seq![110u8, 97u8, 110u8, 111u8] || l
        == seq![110u8, 97u8, 110u8, 111u8, 101u8, 116u8, 104u8, 101u8, 114u8] || l == seq![115u8, 104u8, 97u8, 110u8, 110u8, 111u8, 110u8] {
        Some(9u32)
    } else if l == seq![109u8, 119u8, 101u8, 105u8]  // "mwei", "pico", "picoether", "lovelace"
        || l == seq![112u8, 105u8, 99u8, 111u8] || l
        == seq![112u8, 105u8, 99u8, 111u8, 101u8, 116u8, 104u8, 101u8, 114u8] || l == seq![108u8, 111u8, 118u8, 101u8, 108u8, 97u8, 99u8, 101u8] {
        Some(6u32)
    } else if l == seq![107u8, 119u8, 101u8, 105u8]  // "kwei", "femto", "femtoether", "babbage"
        || l == seq![102u8, 101u8, 109u8, 116u8, 111u8] || l
        == seq![102u8, 101u8, 109u8, 116u8, 111u8, 101u8, 116u8, 104u8, 101u8, 114u8] || l == seq![98u8, 97u8, 98u8, 98u8, 97u8, 103u8, 101u8] {
        Some(3u32)
    } else if l == seq![119u8, 101u8, 105u8] {  // "wei"
        Some(0u32)
    } else {
        None
    }
}

/// Lowercase an ASCII byte string.
fn to_lower(s: &[u8]) -> (r: Vec<u8>)
    ensures
        r@ == lower_seq(s@),
{
    let mut out: Vec<u8> = Vec::new();
    let mut i: usize = 0;
    while i < s.len()
        invariant
            i <= s@.len(),
            out@.len() == i,
            forall|j: int| 0 <= j < i ==> out@[j] == lower_byte(s@[j]),
        decreases s@.len() - i,
    {
        let b = s[i];
        if 65 <= b && b <= 90 {
            out.push(b + 32);
        } else {
            out.push(b);
        }
        i = i + 1;
    }
    proof {
        assert(out@ =~= lower_seq(s@));
    }
    out
}

/// Are two byte strings equal?
fn eq_bytes<const N: usize>(a: &[u8], lit: &[u8; N]) -> (r: bool)
    ensures
        r == (a@ =~= lit@),
{
    let l = lit.as_slice();
    if a.len() != l.len() {
        return false;
    }
    let mut i: usize = 0;
    while i < a.len()
        invariant
            i <= a@.len(),
            a@.len() == l@.len(),
            l@ == lit@,
            forall|j: int| 0 <= j < i ==> a@[j] == l@[j],
        decreases a@.len() - i,
    {
        if a[i] != l[i] {
            return false;
        }
        i = i + 1;
    }
    true
}

/// The number of decimals the unit name `unit` stands for: `ether` is
/// eighteen, `gwei` nine, `wei` zero, and so on, compared without
/// regard to ASCII case.
pub fn unit_decimals(unit: &[u8]) -> (r: Option<u32>)
    ensures
        r == spec_unit_decimals(unit@),
{
    let lc = to_lower(unit);
    let l = lc.as_slice();
    // "eth", "ether"
    if eq_bytes(l, &[101, 116, 104]) || eq_bytes(l, &[101, 116, 104, 101, 114]) {
        Some(18)
    // "pwei", "milli", "milliether", "finney"
    } else if eq_bytes(l, &[112, 119, 101, 105]) || eq_bytes(l, &[109, 105, 108, 108, 105])
        || eq_bytes(l, &[109, 105, 108, 108, 105, 101, 116, 104, 101, 114])
        || eq_bytes(l, &[102, 105, 110, 110, 101, 121]) {
        Some(15)
    // "twei", "micro", "microether", "szabo"
    } else if eq_bytes(l, &[116, 119, 101, 105]) || eq_bytes(l, &[109, 105, 99, 114, 111])
        || eq_bytes(l, &[109, 105, 99, 114, 111, 101, 116, 104, 101, 114])
        || eq_bytes(l, &[115, 122, 97, 98, 111]) {
        Some(12)
    // "gwei", "nano", "nanoether", "shannon"
    } else if eq_bytes(l, &[103, 119, 101, 105]) || eq_bytes(l, &[110, 97, 110, 111])
        || eq_bytes(l, &[110, 97, 110, 111, 101, 116, 104, 101, 114])
        || eq_bytes(l, &[115, 104, 97, 110, 110, 111, 110]) {
        Some(9)
    // "mwei", "pico", "picoether", "lovelace"
    } else if eq_bytes(l, &[109, 119, 101, 105]) || eq_bytes(l, &[112, 105, 99, 111])
        || eq_bytes(l, &[112, 105, 99, 111, 101, 116, 104, 101, 114])
        || eq_bytes(l, &[108, 111, 118, 101, 108, 97, 99, 101]) {
        Some(6)
    // "kwei", "femto", "femtoether", "babbage"
    } else if eq_bytes(l, &[107, 119, 101, 105]) || eq_bytes(l, &[102, 101, 109, 116, 111])
        || eq_bytes(l, &[102, 101, 109, 116, 111, 101, 116, 104, 101, 114])
        || eq_bytes(l, &[98, 97, 98, 98, 97, 103, 101]) {
        Some(3)
    // "wei"
    } else if eq_bytes(l, &[119, 101, 105]) {
        Some(0)
    } else {
        None
    }
}

/// Convert a decimal amount string and a unit name to an exact number
/// of wei.
///
/// The unit is looked up first; an unknown unit fails whatever the
/// amount says. A well-formed amount is digits with at most one dot and
/// at least one digit; its value times the unit's power of ten must be
/// an integer, or the conversion would lose precision and is refused.
pub fn parse_amount(amount: &[u8], unit: &[u8]) -> (r: Result<Amount, AmountParseError>)
    ensures
        r is Ok <==> spec_unit_decimals(unit@) is Some && spec_parse_amount(
            amount@,
            spec_unit_decimals(unit@)->0,
        ) is Some,
        r is Ok ==> r->Ok_0.wf() && Some(r->Ok_0.value()) == spec_parse_amount(
            amount@,
            spec_unit_decimals(unit@)->0,
        ),
        (r is Err && r->Err_0 == AmountParseError::UnrecognizedUnit) <==> spec_unit_decimals(
            unit@,
        ) is None,
        spec_unit_decimals(unit@) is Some ==> ((r is Err && r->Err_0
            == AmountParseError::MalformedAmount) <==> !well_formed_amount(amount@)),
        spec_unit_decimals(unit@) is Some && well_formed_amount(amount@) ==> ((r is Err
            && r->Err_0 == AmountParseError::PrecisionLoss) <==> frac_len(amount@)
            > spec_unit_decimals(unit@)->0),
{
    let dec: u32 = match unit_decimals(unit) {
        Some(d) => d,
        None => {
            return Err(AmountParseError::UnrecognizedUnit);
        },
    };
    let mut ds: Vec<u8> = Vec::new();
    let mut seen_dot: bool = false;
    let mut frac: usize = 0;
    let mut i: usize = 0;
    while i < amount.len()
        invariant
            spec_unit_decimals(unit@) == Some(dec),
            i <= amount@.len(),
            ds@ == digit_seq(amount@.subrange(0, i as int)),
            seen_dot == has_dot(amount@.subrange(0, i as int)),
            frac == frac_len(amount@.subrange(0, i as int)),
            at_most_one_dot(amount@.subrange(0, i as int)),
            forall|j: int| 0 <= j < i ==> is_digit(amount@[j]) || amount@[j] == 46,
            forall|j: int| 0 <= j < ds@.len() ==> is_digit(ds@[j]),
            frac <= i,
        decreases amount@.len() - i,
    {
        let b = amount[i];
        proof {
            assert(amount@.subrange(0, i + 1).drop_last() =~= amount@.subrange(0, i as int));
            assert(amount@.subrange(0, i + 1).last() == amount@[i as int]);
        }
        if b == 46 {
            if seen_dot {
                proof {
                    assert(!at_most_one_dot(amount@.subrange(0, i + 1)));
                    if at_most_one_dot(amount@) {
                        lemma_at_most_one_dot_prefix(amount@, i + 1);
                    }
                }
                return Err(AmountParseError::MalformedAmount);
            }
            seen_dot = true;
            frac = 0;
        } else if 48 <= b && b <= 57 {
            ds.push(b);
            if seen_dot {
                frac = frac + 1;
            }
        } else {
            proof {
                assert(!(is_digit(amount@[i as int]) || amount@[i as int] == 46));
            }
            return Err(AmountParseError::MalformedAmount);
        }
        i = i + 1;
    }
    proof {
        assert(amount@.subrange(0, amount@.len() as int) =~= amount@);
    }
    if ds.len() == 0 {
        return Err(AmountParseError::MalformedAmount);
    }
    if frac > dec as usize {
        return Err(AmountParseError::PrecisionLoss);
    }
    let zeros: usize = dec as usize - frac;
    let ghost base = ds@;
    let mut k: usize = 0;
    proof {
        assert(pow10(0) == 1);
        assert(seq_val(base) * 1 == seq_val(base));
    }
    while k < zeros
        invariant
            k <= zeros,
            spec_unit_decimals(unit@) == Some(dec),
            well_formed_amount(amount@),
            base == digit_seq(amount@),
            frac == frac_len(amount@),
            frac <= dec,
            zeros == dec - frac,
            seq_val(ds@) == seq_val(base) * pow10(k as nat),
            forall|j: int| 0 <= j < ds@.len() ==> is_digit(ds@[j]),
            ds@.len() == base.len() + k,
            base.len() >= 1,
        decreases zeros - k,
    {
        proof {
            crate::digits::lemma_seq_val_push_zero(ds@);
            assert(pow10((k + 1) as nat) == 10 * pow10(k as nat));
            assert(seq_val(base) * pow10(k as nat) * 10 == seq_val(base) * (10 * pow10(
                k as nat,
            ))) by (nonlinear_arith);
        }
        ds.push(48);
        k = k + 1;
    }
    proof {
        assert((dec - frac_len(amount@)) as nat == zeros as nat);
    }
    Ok(Amount { digits: ds })
}

} // verus!

//! Decimal digits as ASCII bytes, and the value of a digit string.

use vstd::prelude::*;

verus! {

/// Is `b` the ASCII code of a decimal digit?
pub open spec fn is_digit(b: u8) -> bool {
    48 <= b <= 57
}

/// Numeric value of an ASCII decimal digit.
pub open spec fn digit_val(b: u8) -> nat {
    (b - 48) as nat
}

/// Value of a string of ASCII decimal digits, most significant first.
pub open spec fn seq_val(s: Seq<u8>) -> nat
    decreases s.len(),
{
    if s.len() == 0 {
        0
    } else {
        seq_val(s.drop_last()) * 10 + digit_val(s.last())
    }
}

/// 10 to the power `n`.
pub open spec fn pow10(n: nat) -> nat
    decreases n,
{
    if n == 0 {
        1
    } else {
        10 * pow10((n - 1) as nat)
    }
}

/// Appending the digit `0` multiplies the value of a digit string by ten.
pub proof fn lemma_seq_val_push_zero(s: Seq<u8>)
    ensures
        seq_val(s.push(48)) == seq_val(s) * 10,
{
    assert(s.push(48).drop_last() =~= s);
}

} // verus!

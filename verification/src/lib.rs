//! Client library for interacting with the SCM token sale: exact
//! amount-to-wei conversion, key and address parsing, the contract
//! registry, read-only query descriptions, and the two-phase
//! approve-then-invest transaction sequencing logic.

pub mod address;
pub mod amount;
pub mod digits;
pub mod hexdec;
pub mod intent;
pub mod queries;
pub mod registry;
pub mod sequencer;

use vstd::prelude::*;

verus! {

/// Why an amount string together with a unit name could not be turned
/// into an integer number of wei.
#[derive(Clone, Copy, Debug, PartialEq, Eq, Structural)]
pub enum AmountParseError {
    /// The amount string is not a decimal number.
    MalformedAmount,
    /// The unit name is not in the unit table.
    UnrecognizedUnit,
    /// The fractional part is finer than one wei, so the conversion
    /// would lose precision.
    PrecisionLoss,
}

/// Why a private key string could not be turned into key bytes.
#[derive(Clone, Copy, Debug, PartialEq, Eq, Structural)]
pub enum KeyParseError {
    /// After removing an optional `0x` prefix, the string is not a
    /// sequence of hex digit pairs.
    MalformedHex,
}

} // verus!

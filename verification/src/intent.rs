//! Descriptions of contract calls: mutating transaction intents and
//! read-only calls.
//!
//! A read-only call carries no nonce, no gas and no signature, so by
//! construction it can never be submitted as a transaction.

use vstd::prelude::*;
use crate::address::AccountAddress;
use crate::amount::Amount;
use crate::registry::{Method, is_read_only};

verus! {

/// Gas limit set by hand on the invest transaction, instead of a
/// simulated-execution estimate: simulating it before the allowance
/// raise is confirmed would revert.
pub const INVEST_GAS_LIMIT: u64 = 90000;

/// A not-yet-submitted description of a mutating contract call.
///
/// `nonce` and `gas` left as `None` are filled from chain state by the
/// chain client before signing; a `Some` value overrides that fill.
pub struct TxIntent {
    /// The contract to call.
    pub target: AccountAddress,
    /// The method to call on it.
    pub method: Method,
    /// Its address argument, for methods that take one.
    pub address_arg: Option<AccountAddress>,
    /// Its amount argument, for methods that take one.
    pub amount_arg: Option<Amount>,
    /// The account nonce, if set by hand.
    pub nonce: Option<u64>,
    /// The gas limit, if set by hand.
    pub gas: Option<u64>,
}

/// A read-only contract call: no nonce, no gas, nothing to sign.
pub struct ReadCall {
    /// The contract to call.
    pub target: AccountAddress,
    /// The read-only method to call on it.
    pub method: Method,
    /// Its address argument, for methods that take one.
    pub address_arg: Option<AccountAddress>,
}

impl ReadCall {
    /// A read call only ever names a read-only method.
    pub open spec fn wf(self) -> bool {
        is_read_only(self.method)
    }
}

} // verus!

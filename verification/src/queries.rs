//! The read-only queries: balances, the claimable amount, and the
//! sale's status.
//!
//! Each query is exactly one read call against one contract. The
//! functions here return that call's description; they never produce a
//! transaction intent, so a query cannot submit anything.

use vstd::prelude::*;
use crate::address::AccountAddress;
use crate::intent::ReadCall;
use crate::registry::{Method, Registry};

verus! {

/// The one read call that a wrapped-ether balance query makes:
/// `balanceOf(holder)` on the token contract.
pub fn weth_balance_call(reg: &Registry, holder: AccountAddress) -> (r: ReadCall)
    ensures
        r.wf(),
        r.target.bytes@ == reg.token.address.bytes@,
        r.method == Method::BalanceOf,
        r.address_arg == Some(holder),
{
    ReadCall {
        target: reg.token.address.clone(),
        method: Method::BalanceOf,
        address_arg: Some(holder),
    }
}

/// The one read call that a sale-token balance query makes:
/// `balanceOf(holder)` on the sale token contract.
pub fn scm_balance_call(reg: &Registry, holder: AccountAddress) -> (r: ReadCall)
    ensures
        r.wf(),
        r.target.bytes@ == reg.scm.address.bytes@,
        r.method == Method::BalanceOf,
        r.address_arg == Some(holder),
{
    ReadCall {
        target: reg.scm.address.clone(),
        method: Method::BalanceOf,
        address_arg: Some(holder),
    }
}

/// The one read call that a claimable-amount query makes:
/// `claimableScm(holder)` on the sale contract.
pub fn claimable_scm_call(reg: &Registry, holder: AccountAddress) -> (r: ReadCall)
    ensures
        r.wf(),
        r.target.bytes@ == reg.ico.address.bytes@,
        r.method == Method::ClaimableScm,
        r.address_arg == Some(holder),
{
    ReadCall {
        target: reg.ico.address.clone(),
        method: Method::ClaimableScm,
        address_arg: Some(holder),
    }
}

/// The one read call that a sale-status query makes: `isCompleted()`
/// on the sale contract, with no argument.
pub fn ico_status_call(reg: &Registry) -> (r: ReadCall)
    ensures
        r.wf(),
        r.target.bytes@ == reg.ico.address.bytes@,
        r.method == Method::IsCompleted,
        r.address_arg is None,
{
    ReadCall { target: reg.ico.address.clone(), method: Method::IsCompleted, address_arg: None }
}

} // verus!

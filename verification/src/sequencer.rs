//! The two-phase investment flow, and the single-transaction claim.
//!
//! Investing raises the sale contract's allowance with `approve` on the
//! token contract, then calls `invest` on the sale contract, without
//! waiting for the first transaction to be included. The sequencing
//! decisions live here as a state machine: the caller performs one
//! chain operation per state (fill, submit, await), feeds the outcome
//! back as a `ChainEvent`, and `invest_step` decides what comes next.
//! Only the `approve` intent may be filled (and so gas-estimated) from
//! chain state; the `invest` intent's nonce is the filled nonce plus
//! one, set by hand so that an unconfirmed `approve` cannot be read
//! back as a stale nonce, and its gas limit is the fixed
//! `INVEST_GAS_LIMIT`, set by hand because a simulated execution would
//! revert while the allowance raise is still unconfirmed.

use vstd::prelude::*;
use crate::address::AccountAddress;
use crate::amount::{Amount, parse_amount, spec_parse_amount, spec_unit_decimals};
use crate::intent::{INVEST_GAS_LIMIT, TxIntent};
use crate::registry::{Method, Registry};
use crate::AmountParseError;

verus! {

/// The chain operation during which the investment flow can fail.
#[derive(Clone, Copy, Debug, PartialEq, Eq, Structural)]
pub enum TxStep {
    /// Filling the `approve` intent from chain state.
    FillApprove,
    /// Submitting the signed `approve` transaction.
    SubmitApprove,
    /// Submitting the signed `invest` transaction.
    SubmitInvest,
    /// Awaiting inclusion of the `invest` transaction.
    AwaitInvest,
}

/// The outcome of one chain operation, reported back to the flow.
#[derive(Clone, Copy, Debug, PartialEq, Eq, Structural)]
pub enum ChainEvent {
    /// A fill succeeded; the chain client assigned this nonce.
    Filled { nonce: u64 },
    /// A fill failed.
    FillFailed,
    /// A submission was accepted for broadcast.
    Submitted,
    /// A submission failed.
    SubmitFailed,
    /// The awaited transaction was included in the chain.
    Included,
    /// The wait for inclusion failed.
    InclusionFailed,
}

/// Where the investment flow stands, and what the caller does next.
pub enum InvestState {
    /// Fill `approve` from chain state; this is the only intent whose
    /// gas may come from a simulated execution.
    FillingApprove {
        /// The `approve` intent, nonce and gas left for the fill.
        approve: TxIntent,
        /// The sale contract, target of the later `invest`.
        ico: AccountAddress,
        /// The amount to invest, in wei.
        amount: Amount,
    },
    /// Sign and submit `approve`; do not await its confirmation.
    SubmittingApprove {
        /// The `approve` intent, now carrying the filled nonce.
        approve: TxIntent,
        /// The sale contract, target of the later `invest`.
        ico: AccountAddress,
        /// The amount to invest, in wei.
        amount: Amount,
        /// The nonce the fill assigned to `approve`.
        nonce: u64,
    },
    /// Sign and submit `invest`, with nonce and gas set by hand.
    SubmittingInvest {
        /// The `invest` intent.
        invest: TxIntent,
    },
    /// Await inclusion of the `invest` transaction only.
    AwaitingInvest,
    /// The `invest` transaction was included.
    Completed,
    /// The flow failed and stops here; nothing is retried and nothing
    /// is rolled back.
    Failed {
        /// The operation that failed.
        step: TxStep,
    },
}

/// The `invest` intent built after a fill that assigned `nonce`: the
/// next nonce by hand, the fixed gas limit by hand.
pub open spec fn spec_invest_intent(ico: AccountAddress, amount: Amount, nonce: u64) -> TxIntent {
    TxIntent {
        target: ico,
        method: Method::Invest,
        address_arg: None,
        amount_arg: Some(amount),
        nonce: Some((nonce + 1) as u64),
        gas: Some(INVEST_GAS_LIMIT),
    }
}

/// One step of the investment flow: from a state and the outcome of
/// its chain operation to the next state. An event that does not
/// belong to the current state changes nothing.
pub open spec fn spec_invest_step(s: InvestState, e: ChainEvent) -> InvestState {
    match s {
        InvestState::FillingApprove { approve, ico, amount } => match e {
            ChainEvent::Filled { nonce } => InvestState::SubmittingApprove {
                approve: TxIntent { nonce: Some(nonce), ..approve },
                ico,
                amount,
                nonce,
            },
            ChainEvent::FillFailed => InvestState::Failed { step: TxStep::FillApprove },
            _ => InvestState::FillingApprove { approve, ico, amount },
        },
        InvestState::SubmittingApprove { approve, ico, amount, nonce } => match e {
            ChainEvent::Submitted => InvestState::SubmittingInvest {
                invest: spec_invest_intent(ico, amount, nonce),
            },
            ChainEvent::SubmitFailed => InvestState::Failed { step: TxStep::SubmitApprove },
            _ => InvestState::SubmittingApprove { approve, ico, amount, nonce },
        },
        InvestState::SubmittingInvest { invest } => match e {
            ChainEvent::Submitted => InvestState::AwaitingInvest,
            ChainEvent::SubmitFailed => InvestState::Failed { step: TxStep::SubmitInvest },
            _ => InvestState::SubmittingInvest { invest },
        },
        InvestState::AwaitingInvest => match e {
            ChainEvent::Included => InvestState::Completed,
            ChainEvent::InclusionFailed => InvestState::Failed { step: TxStep::AwaitInvest },
            _ => InvestState::AwaitingInvest,
        },
        InvestState::Completed => InvestState::Completed,
        InvestState::Failed { step } => InvestState::Failed { step },
    }
}

/// Start the investment flow: convert the amount, and construct the
/// `approve` intent against the token contract, allowing the sale
/// contract to spend exactly the converted amount.
///
/// A bad amount or unit fails here, before any intent exists, so no
/// transaction is ever constructed from a malformed amount.
pub fn start_invest(reg: &Registry, amount: &[u8], unit: &[u8]) -> (r: Result<
    InvestState,
    AmountParseError,
>)
    ensures
        r is Ok <==> spec_unit_decimals(unit@) is Some && spec_parse_amount(
            amount@,
            spec_unit_decimals(unit@)->0,
        ) is Some,
        r is Err ==> ((r->Err_0 == AmountParseError::UnrecognizedUnit) <==> spec_unit_decimals(
            unit@,
        ) is None),
        r is Err && spec_unit_decimals(unit@) is Some ==> ((r->Err_0
            == AmountParseError::MalformedAmount) <==> !crate::amount::well_formed_amount(amount@)),
        r is Err && spec_unit_decimals(unit@) is Some && crate::amount::well_formed_amount(amount@)
            ==> ((r->Err_0 == AmountParseError::PrecisionLoss) <==> crate::amount::frac_len(amount@)
            > spec_unit_decimals(unit@)->0),
        r is Ok ==> ({
            &&& r->Ok_0 matches InvestState::FillingApprove { approve, ico, amount: wei }
            &&& approve.method == Method::Approve
            &&& approve.target.bytes@ == reg.token.address.bytes@
            &&& approve.address_arg matches Some(a) && a.bytes@ == reg.ico.address.bytes@
            &&& approve.amount_arg matches Some(w) && w.wf() && Some(w.value())
                == spec_parse_amount(amount@, spec_unit_decimals(unit@)->0)
            &&& approve.nonce is None
            &&& approve.gas is None
            &&& ico.bytes@ == reg.ico.address.bytes@
            &&& wei.wf()
            &&& Some(wei.value()) == spec_parse_amount(amount@, spec_unit_decimals(unit@)->0)
        }),
{
    let wei = match parse_amount(amount, unit) {
        Ok(w) => w,
        Err(e) => {
            return Err(e);
        },
    };
    let approve = TxIntent {
        target: reg.token.address.clone(),
        method: Method::Approve,
        address_arg: Some(reg.ico.address.clone()),
        amount_arg: Some(wei.clone()),
        nonce: None,
        gas: None,
    };
    Ok(InvestState::FillingApprove { approve, ico: reg.ico.address.clone(), amount: wei })
}

/// Advance the investment flow by the outcome of one chain operation.
pub fn invest_step(s: InvestState, e: ChainEvent) -> (r: InvestState)
    requires
        e matches ChainEvent::Filled { nonce } ==> nonce < u64::MAX,
        s matches InvestState::SubmittingApprove { nonce, .. } ==> nonce < u64::MAX,
    ensures
        r == spec_invest_step(s, e),
{
    match s {
        InvestState::FillingApprove { approve, ico, amount } => match e {
            ChainEvent::Filled { nonce } => InvestState::SubmittingApprove {
                approve: TxIntent { nonce: Some(nonce), ..approve },
                ico,
                amount,
                nonce,
            },
            ChainEvent::FillFailed => InvestState::Failed { step: TxStep::FillApprove },
            _ => InvestState::FillingApprove { approve, ico, amount },
        },
        InvestState::SubmittingApprove { approve, ico, amount, nonce } => match e {
            ChainEvent::Submitted => InvestState::SubmittingInvest {
                invest: TxIntent {
                    target: ico,
                    method: Method::Invest,
                    address_arg: None,
                    amount_arg: Some(amount),
                    nonce: Some(nonce + 1),
                    gas: Some(INVEST_GAS_LIMIT),
                },
            },
            ChainEvent::SubmitFailed => InvestState::Failed { step: TxStep::SubmitApprove },
            _ => InvestState::SubmittingApprove { approve, ico, amount, nonce },
        },
        InvestState::SubmittingInvest { invest } => match e {
            ChainEvent::Submitted => InvestState::AwaitingInvest,
            ChainEvent::SubmitFailed => InvestState::Failed { step: TxStep::SubmitInvest },
            _ => InvestState::SubmittingInvest { invest },
        },
        InvestState::AwaitingInvest => match e {
            ChainEvent::Included => InvestState::Completed,
            ChainEvent::InclusionFailed => InvestState::Failed { step: TxStep::AwaitInvest },
            _ => InvestState::AwaitingInvest,
        },
        InvestState::Completed => InvestState::Completed,
        InvestState::Failed { step } => InvestState::Failed { step },
    }
}

/// The claim flow's single intent: `claim()` on the sale contract,
/// no arguments, nonce and gas left for the chain client to fill.
pub fn claim_intent(reg: &Registry) -> (r: TxIntent)
    ensures
        r.method == Method::Claim,
        r.target.bytes@ == reg.ico.address.bytes@,
        r.address_arg is None,
        r.amount_arg is None,
        r.nonce is None,
        r.gas is None,
{
    TxIntent {
        target: reg.ico.address.clone(),
        method: Method::Claim,
        address_arg: None,
        amount_arg: None,
        nonce: None,
        gas: None,
    }
}

/// The state the flow reaches from `s0` after a sequence of chain
/// events, applied in order.
pub open spec fn run(s0: InvestState, events: Seq<ChainEvent>) -> InvestState
    decreases events.len(),
{
    if events.len() == 0 {
        s0
    } else {
        spec_invest_step(run(s0, events.drop_last()), events.last())
    }
}

/// Running a flow over concatenated event sequences is running it over
/// the first, then the second.
pub proof fn lemma_run_append(s0: InvestState, a: Seq<ChainEvent>, b: Seq<ChainEvent>)
    ensures
        run(s0, a + b) == run(run(s0, a), b),
    decreases b.len(),
{
    if b.len() == 0 {
        assert(a + b =~= a);
    } else {
        lemma_run_append(s0, a, b.drop_last());
        assert((a + b).drop_last() =~= a + b.drop_last());
    }
}

/// A failure is final: no later event restarts the flow, resubmits
/// anything, or rolls anything back.
pub proof fn lemma_failure_is_final(t: TxStep, events: Seq<ChainEvent>)
    ensures
        run(InvestState::Failed { step: t }, events) == (InvestState::Failed { step: t }),
    decreases events.len(),
{
    if events.len() > 0 {
        lemma_failure_is_final(t, events.drop_last());
    }
}

/// If submitting `approve` failed at some point of a run, the flow is
/// aborted for good: at every later point it still reports that same
/// failure, and in particular no `invest` intent is ever constructed,
/// submitted or awaited afterwards.
pub proof fn lemma_no_invest_after_approve_failure(
    s0: InvestState,
    events: Seq<ChainEvent>,
    i: int,
    j: int,
)
    requires
        0 <= i <= j <= events.len(),
        run(s0, events.take(i)) == (InvestState::Failed { step: TxStep::SubmitApprove }),
    ensures
        run(s0, events.take(j)) == (InvestState::Failed { step: TxStep::SubmitApprove }),
        !(run(s0, events.take(j)) is SubmittingInvest),
        !(run(s0, events.take(j)) is AwaitingInvest),
        !(run(s0, events.take(j)) is Completed),
{
    let mid = events.take(j).subrange(i, j);
    assert(events.take(j) =~= events.take(i) + mid);
    lemma_run_append(s0, events.take(i), mid);
    lemma_failure_is_final(TxStep::SubmitApprove, mid);
}

/// The filled nonce sequences the two transactions: after a fill that
/// assigned nonce `n` and a successful `approve` submission, the flow
/// stands at submitting an `invest` intent whose nonce is exactly
/// `n + 1` — taken from the fill, not from a fresh chain query — and
/// whose gas limit is exactly the fixed constant, with the amount the
/// flow started with.
pub proof fn lemma_invest_intent_sequencing(s: InvestState, n: u64)
    requires
        s is FillingApprove,
        n < u64::MAX,
    ensures
        ({
            let s1 = spec_invest_step(s, ChainEvent::Filled { nonce: n });
            let s2 = spec_invest_step(s1, ChainEvent::Submitted);
            &&& s2 matches InvestState::SubmittingInvest { invest }
            &&& invest.nonce == Some((n + 1) as u64)
            &&& invest.gas == Some(INVEST_GAS_LIMIT)
            &&& invest.method == Method::Invest
            &&& invest.target == s->FillingApprove_ico
            &&& invest.amount_arg == Some(s->FillingApprove_amount)
        }),
{
}

/// In any run of the flow, whenever an `invest` intent stands ready
/// for submission, its gas limit is the fixed constant and its nonce
/// is set by hand: neither is ever left to be estimated or filled from
/// chain state.
pub open spec fn invest_overrides_set(s: InvestState) -> bool {
    s matches InvestState::SubmittingInvest { invest } ==> invest.gas == Some(INVEST_GAS_LIMIT)
        && invest.nonce is Some && invest.method == Method::Invest
}

/// One step preserves `invest_overrides_set`.
pub proof fn lemma_overrides_step(s: InvestState, e: ChainEvent)
    requires
        invest_overrides_set(s),
    ensures
        invest_overrides_set(spec_invest_step(s, e)),
{
}

/// Any run of the flow from its start keeps `invest_overrides_set`:
/// the gas limit of every `invest` intent ever submitted is the fixed
/// constant, never an estimate.
pub proof fn lemma_gas_always_fixed(s0: InvestState, events: Seq<ChainEvent>)
    requires
        invest_overrides_set(s0),
    ensures
        invest_overrides_set(run(s0, events)),
    decreases events.len(),
{
    if events.len() > 0 {
        lemma_gas_always_fixed(s0, events.drop_last());
        lemma_overrides_step(run(s0, events.drop_last()), events.last());
    }
}

/// If submitting `invest` fails after `approve` went out, the flow
/// reports exactly that failure and stops: the raised allowance is
/// left standing, deliberately — no reversing transaction is ever
/// constructed.
pub proof fn lemma_invest_failure_reported(invest: TxIntent, events: Seq<ChainEvent>)
    ensures
        spec_invest_step(InvestState::SubmittingInvest { invest }, ChainEvent::SubmitFailed)
            == (InvestState::Failed { step: TxStep::SubmitInvest }),
        run(InvestState::Failed { step: TxStep::SubmitInvest }, events) == (InvestState::Failed {
            step: TxStep::SubmitInvest,
        }),
{
    lemma_failure_is_final(TxStep::SubmitInvest, events);
}

} // verus!

use scm_client::registry::{contract_registry, Method, Registry};
use scm_client::sequencer::{claim_intent, invest_step, start_invest, ChainEvent, InvestState, TxStep};
use scm_client::intent::INVEST_GAS_LIMIT;
use scm_client::AmountParseError;

fn registry() -> Registry {
    contract_registry().unwrap()
}

#[test]
fn invest_starts_with_an_unfilled_approve() {
    let reg = registry();
    let state = start_invest(&reg, b"1", b"ether").unwrap();
    match state {
        InvestState::FillingApprove { approve, ico, amount } => {
            assert_eq!(approve.method, Method::Approve);
            assert_eq!(approve.target.bytes, reg.token.address.bytes);
            assert_eq!(
                approve.address_arg.unwrap().bytes,
                reg.ico.address.bytes
            );
            assert_eq!(
                String::from_utf8(approve.amount_arg.unwrap().digits).unwrap(),
                "1000000000000000000"
            );
            // Nonce and gas are left for the fill: the one automatic
            // estimation of the flow.
            assert!(approve.nonce.is_none());
            assert!(approve.gas.is_none());
            assert_eq!(ico.bytes, reg.ico.address.bytes);
            assert_eq!(
                String::from_utf8(amount.digits).unwrap(),
                "1000000000000000000"
            );
        }
        _ => panic!("expected the filling state"),
    }
}

#[test]
fn bad_amounts_fail_before_any_intent_exists() {
    let reg = registry();
    assert!(matches!(
        start_invest(&reg, b"1.2.3", b"ether"),
        Err(AmountParseError::MalformedAmount)
    ));
    assert!(matches!(
        start_invest(&reg, b"1", b"parsec"),
        Err(AmountParseError::UnrecognizedUnit)
    ));
    assert!(matches!(
        start_invest(&reg, b"1.5", b"wei"),
        Err(AmountParseError::PrecisionLoss)
    ));
}

#[test]
fn invest_carries_filled_nonce_plus_one_and_fixed_gas() {
    let reg = registry();
    let state = start_invest(&reg, b"2", b"gwei").unwrap();
    let state = invest_step(state, ChainEvent::Filled { nonce: 41 });
    match &state {
        InvestState::SubmittingApprove { approve, nonce, .. } => {
            assert_eq!(*nonce, 41);
            assert_eq!(approve.nonce, Some(41));
        }
        _ => panic!("expected the approve submission state"),
    }
    let state = invest_step(state, ChainEvent::Submitted);
    match state {
        InvestState::SubmittingInvest { invest } => {
            assert_eq!(invest.method, Method::Invest);
            assert_eq!(invest.target.bytes, reg.ico.address.bytes);
            assert_eq!(invest.nonce, Some(42));
            assert_eq!(invest.gas, Some(INVEST_GAS_LIMIT));
            assert_eq!(invest.gas, Some(90_000));
            assert_eq!(
                String::from_utf8(invest.amount_arg.unwrap().digits).unwrap(),
                "2000000000"
            );
        }
        _ => panic!("expected the invest submission state"),
    }
}

#[test]
fn successful_flow_completes_after_awaiting_invest_only() {
    let reg = registry();
    let mut state = start_invest(&reg, b"1", b"wei").unwrap();
    for event in [
        ChainEvent::Filled { nonce: 0 },
        ChainEvent::Submitted,
        ChainEvent::Submitted,
        ChainEvent::Included,
    ] {
        state = invest_step(state, event);
    }
    assert!(matches!(state, InvestState::Completed));
}

#[test]
fn fill_failure_aborts_before_approve_submission() {
    let reg = registry();
    let state = start_invest(&reg, b"1", b"wei").unwrap();
    let state = invest_step(state, ChainEvent::FillFailed);
    assert!(matches!(
        state,
        InvestState::Failed { step: TxStep::FillApprove }
    ));
}

#[test]
fn approve_submission_failure_never_reaches_invest() {
    let reg = registry();
    let mut state = start_invest(&reg, b"1", b"wei").unwrap();
    state = invest_step(state, ChainEvent::Filled { nonce: 7 });
    state = invest_step(state, ChainEvent::SubmitFailed);
    assert!(matches!(
        state,
        InvestState::Failed { step: TxStep::SubmitApprove }
    ));
    // Whatever the chain reports afterwards, the flow stays aborted.
    for event in [ChainEvent::Submitted, ChainEvent::Included, ChainEvent::Filled { nonce: 8 }] {
        state = invest_step(state, event);
        assert!(matches!(
            state,
            InvestState::Failed { step: TxStep::SubmitApprove }
        ));
    }
}

#[test]
fn invest_submission_failure_is_reported_and_final() {
    let reg = registry();
    let mut state = start_invest(&reg, b"1", b"wei").unwrap();
    state = invest_step(state, ChainEvent::Filled { nonce: 7 });
    state = invest_step(state, ChainEvent::Submitted);
    state = invest_step(state, ChainEvent::SubmitFailed);
    assert!(matches!(
        state,
        InvestState::Failed { step: TxStep::SubmitInvest }
    ));
    // The raised allowance is left standing: no further intent follows.
    state = invest_step(state, ChainEvent::Submitted);
    assert!(matches!(
        state,
        InvestState::Failed { step: TxStep::SubmitInvest }
    ));
}

#[test]
fn inclusion_failure_is_surfaced() {
    let reg = registry();
    let mut state = start_invest(&reg, b"1", b"wei").unwrap();
    for event in [
        ChainEvent::Filled { nonce: 3 },
        ChainEvent::Submitted,
        ChainEvent::Submitted,
        ChainEvent::InclusionFailed,
    ] {
        state = invest_step(state, event);
    }
    assert!(matches!(
        state,
        InvestState::Failed { step: TxStep::AwaitInvest }
    ));
}

#[test]
fn claim_is_a_single_unfilled_intent() {
    let reg = registry();
    let intent = claim_intent(&reg);
    assert_eq!(intent.method, Method::Claim);
    assert_eq!(intent.target.bytes, reg.ico.address.bytes);
    assert!(intent.address_arg.is_none());
    assert!(intent.amount_arg.is_none());
    assert!(intent.nonce.is_none());
    assert!(intent.gas.is_none());
}

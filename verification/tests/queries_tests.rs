use scm_client::address::parse_address;
use scm_client::queries::{claimable_scm_call, ico_status_call, scm_balance_call, weth_balance_call};
use scm_client::registry::{contract_registry, Method};

#[test]
fn balance_queries_are_one_read_call_each() {
    let reg = contract_registry().unwrap();
    let holder = parse_address(b"0x0000000000000000000000000000000000000001").unwrap();

    let call = weth_balance_call(&reg, holder.clone());
    assert_eq!(call.method, Method::BalanceOf);
    assert_eq!(call.target.bytes, reg.token.address.bytes);
    assert_eq!(call.address_arg.unwrap().bytes, holder.bytes);

    let call = scm_balance_call(&reg, holder.clone());
    assert_eq!(call.method, Method::BalanceOf);
    assert_eq!(call.target.bytes, reg.scm.address.bytes);
    assert_eq!(call.address_arg.unwrap().bytes, holder.bytes);
}

#[test]
fn claimable_query_reads_the_sale_contract() {
    let reg = contract_registry().unwrap();
    let holder = parse_address(b"0x0000000000000000000000000000000000000002").unwrap();
    let call = claimable_scm_call(&reg, holder.clone());
    assert_eq!(call.method, Method::ClaimableScm);
    assert_eq!(call.target.bytes, reg.ico.address.bytes);
    assert_eq!(call.address_arg.unwrap().bytes, holder.bytes);
}

#[test]
fn status_query_takes_no_argument() {
    let reg = contract_registry().unwrap();
    let call = ico_status_call(&reg);
    assert_eq!(call.method, Method::IsCompleted);
    assert_eq!(call.target.bytes, reg.ico.address.bytes);
    assert!(call.address_arg.is_none());
}

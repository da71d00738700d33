use scm_client::address::{parse_address, AddressParseError};
use scm_client::registry::{contract_registry, Method, CHAIN_ID};

#[test]
fn registry_addresses_match_chain_library_parsing() {
    let reg = contract_registry().unwrap();
    let weth: ethers::types::Address =
        "0xc778417E063141139Fce010982780140Aa0cD5Ab".parse().unwrap();
    let scm: ethers::types::Address =
        "0xd19C61495084c4ebCe9e3Fa4140b3830957ef852".parse().unwrap();
    let ico: ethers::types::Address =
        "0xdFb81Af3E53B1b95814c518bc7d503Abc756Fe08".parse().unwrap();
    assert_eq!(reg.token.address.bytes.as_slice(), weth.as_bytes());
    assert_eq!(reg.scm.address.bytes.as_slice(), scm.as_bytes());
    assert_eq!(reg.ico.address.bytes.as_slice(), ico.as_bytes());
}

#[test]
fn registry_interfaces_list_the_callable_methods() {
    let reg = contract_registry().unwrap();
    assert_eq!(reg.token.methods, vec![Method::BalanceOf, Method::Approve]);
    assert_eq!(reg.scm.methods, vec![Method::BalanceOf, Method::Approve]);
    assert_eq!(
        reg.ico.methods,
        vec![
            Method::Claim,
            Method::ClaimableScm,
            Method::IsCompleted,
            Method::Invest
        ]
    );
}

#[test]
fn chain_id_names_the_test_network() {
    assert_eq!(CHAIN_ID, 4);
}

#[test]
fn addresses_parse_with_or_without_prefix() {
    let with = parse_address(b"0xc778417E063141139Fce010982780140Aa0cD5Ab").unwrap();
    let without = parse_address(b"c778417E063141139Fce010982780140Aa0cD5Ab").unwrap();
    assert_eq!(with.bytes, without.bytes);
    assert_eq!(with.bytes.len(), 20);
}

#[test]
fn bad_addresses_are_refused() {
    for bad in [
        &b""[..],
        &b"0x1234"[..],
        &b"0xc778417E063141139Fce010982780140Aa0cD5Agg"[..],
        &b"c778417E063141139Fce010982780140Aa0cD5A"[..],
    ] {
        assert_eq!(
            parse_address(bad).unwrap_err(),
            AddressParseError::MalformedAddress
        );
    }
}

//! The fixed contract deployment this client talks to: addresses and
//! method interfaces of the token contracts and the sale contract.

use vstd::prelude::*;
use crate::address::{AccountAddress, AddressParseError, parse_address, spec_parse_address};

verus! {

/// Chain identifier of the network the deployment lives on.
pub const CHAIN_ID: u64 = 4;

/// A contract method this client knows how to call.
#[derive(Clone, Copy, Debug, PartialEq, Eq, Structural)]
pub enum Method {
    /// `balanceOf(address) -> uint256`, read-only.
    BalanceOf,
    /// `approve(address, uint256)`, mutating.
    Approve,
    /// `claim()`, mutating.
    Claim,
    /// `claimableScm(address) -> uint256`, read-only.
    ClaimableScm,
    /// `isCompleted() -> bool`, read-only.
    IsCompleted,
    /// `invest(uint256)`, mutating.
    Invest,
}

/// Does calling `m` leave the chain unchanged?
pub open spec fn is_read_only(m: Method) -> bool {
    m == Method::BalanceOf || m == Method::ClaimableScm || m == Method::IsCompleted
}

/// A contract: its account address and the methods it offers.
pub struct ContractInfo {
    /// Where the contract lives.
    pub address: AccountAddress,
    /// The callable methods of its interface.
    pub methods: Vec<Method>,
}

/// The three contracts of the deployment.
pub struct Registry {
    /// The wrapped-ether token contract.
    pub token: ContractInfo,
    /// The sale's own token contract.
    pub scm: ContractInfo,
    /// The sale (ICO) contract.
    pub ico: ContractInfo,
}

/// Hex spelling of the wrapped-ether token contract's address.
pub open spec fn weth_address_hex() -> Seq<u8> {
    seq![48u8, 120u8, 99u8, 55u8, 55u8, 56u8, 52u8, 49u8, 55u8, 69u8, 48u8, 54u8, 51u8, 49u8, 52u8, 49u8, 49u8, 51u8, 57u8, 70u8, 99u8, 101u8, 48u8, 49u8, 48u8, 57u8, 56u8, 50u8, 55u8, 56u8, 48u8, 49u8, 52u8, 48u8, 65u8, 97u8, 48u8, 99u8, 68u8, 53u8, 65u8, 98u8]
}

/// Hex spelling of the sale token contract's address.
pub open spec fn scm_address_hex() -> Seq<u8> {
    seq![48u8, 120u8, 100u8, 49u8, 57u8, 67u8, 54u8, 49u8, 52u8, 57u8, 53u8, 48u8, 56u8, 52u8, 99u8, 52u8, 101u8, 98u8, 67u8, 101u8, 57u8, 101u8, 51u8, 70u8, 97u8, 52u8, 49u8, 52u8, 48u8, 98u8, 51u8, 56u8, 51u8, 48u8, 57u8, 53u8, 55u8, 101u8, 102u8, 56u8, 53u8, 50u8]
}

/// Hex spelling of the sale contract's address.
pub open spec fn ico_address_hex() -> Seq<u8> {
    seq![48u8, 120u8, 100u8, 70u8, 98u8, 56u8, 49u8, 65u8, 102u8, 51u8, 69u8, 53u8, 51u8, 66u8, 49u8, 98u8, 57u8, 53u8, 56u8, 49u8, 52u8, 99u8, 53u8, 49u8, 56u8, 98u8, 99u8, 55u8, 100u8, 53u8, 48u8, 51u8, 65u8, 98u8, 99u8, 55u8, 53u8, 54u8, 70u8, 101u8, 48u8, 56u8]
}

/// The methods of the two token contracts' shared interface.
pub open spec fn spec_erc20_methods() -> Seq<Method> {
    seq![Method::BalanceOf, Method::Approve]
}

/// The methods of the sale contract's interface.
pub open spec fn spec_ico_methods() -> Seq<Method> {
    seq![Method::Claim, Method::ClaimableScm, Method::IsCompleted, Method::Invest]
}

/// The token interface: balance queries and allowance raises.
pub fn erc20_methods() -> (r: Vec<Method>)
    ensures
        r@ == spec_erc20_methods(),
{
    let mut v: Vec<Method> = Vec::new();
    v.push(Method::BalanceOf);
    v.push(Method::Approve);
    proof {
        assert(v@ =~= spec_erc20_methods());
    }
    v
}

/// The sale interface: claiming, queries, and investing.
pub fn ico_methods() -> (r: Vec<Method>)
    ensures
        r@ == spec_ico_methods(),
{
    let mut v: Vec<Method> = Vec::new();
    v.push(Method::Claim);
    v.push(Method::ClaimableScm);
    v.push(Method::IsCompleted);
    v.push(Method::Invest);
    proof {
        assert(v@ =~= spec_ico_methods());
    }
    v
}

/// The wrapped-ether token contract, its address parsed from the
/// built-in constant.
pub fn weth_contract() -> (r: Result<ContractInfo, AddressParseError>)
    ensures
        r is Ok <==> spec_parse_address(weth_address_hex()) is Some,
        r is Ok ==> r->Ok_0.address.bytes@ == spec_parse_address(weth_address_hex())->0
            && r->Ok_0.address.wf() && r->Ok_0.methods@ == spec_erc20_methods(),
{
    let hex_lit: [u8; 42] = [48, 120, 99, 55, 55, 56, 52, 49, 55, 69, 48, 54, 51, 49, 52, 49, 49, 51, 57, 70, 99, 101, 48, 49, 48, 57, 56, 50, 55, 56, 48, 49, 52, 48, 65, 97, 48, 99, 68, 53, 65, 98];
    proof {
        assert(hex_lit@ =~= weth_address_hex());
    }
    match parse_address(hex_lit.as_slice()) {
        Ok(address) => Ok(ContractInfo { address, methods: erc20_methods() }),
        Err(e) => Err(e),
    }
}

/// The sale token contract, its address parsed from the built-in
/// constant.
pub fn scm_contract() -> (r: Result<ContractInfo, AddressParseError>)
    ensures
        r is Ok <==> spec_parse_address(scm_address_hex()) is Some,
        r is Ok ==> r->Ok_0.address.bytes@ == spec_parse_address(scm_address_hex())->0
            && r->Ok_0.address.wf() && r->Ok_0.methods@ == spec_erc20_methods(),
{
    let hex_lit: [u8; 42] = [48, 120, 100, 49, 57, 67, 54, 49, 52, 57, 53, 48, 56, 52, 99, 52, 101, 98, 67, 101, 57, 101, 51, 70, 97, 52, 49, 52, 48, 98, 51, 56, 51, 48, 57, 53, 55, 101, 102, 56, 53, 50];
    proof {
        assert(hex_lit@ =~= scm_address_hex());
    }
    match parse_address(hex_lit.as_slice()) {
        Ok(address) => Ok(ContractInfo { address, methods: erc20_methods() }),
        Err(e) => Err(e),
    }
}

/// The sale contract, its address parsed from the built-in constant.
pub fn ico_contract() -> (r: Result<ContractInfo, AddressParseError>)
    ensures
        r is Ok <==> spec_parse_address(ico_address_hex()) is Some,
        r is Ok ==> r->Ok_0.address.bytes@ == spec_parse_address(ico_address_hex())->0
            && r->Ok_0.address.wf() && r->Ok_0.methods@ == spec_ico_methods(),
{
    let hex_lit: [u8; 42] = [48, 120, 100, 70, 98, 56, 49, 65, 102, 51, 69, 53, 51, 66, 49, 98, 57, 53, 56, 49, 52, 99, 53, 49, 56, 98, 99, 55, 100, 53, 48, 51, 65, 98, 99, 55, 53, 54, 70, 101, 48, 56];
    proof {
        assert(hex_lit@ =~= ico_address_hex());
    }
    match parse_address(hex_lit.as_slice()) {
        Ok(address) => Ok(ContractInfo { address, methods: ico_methods() }),
        Err(e) => Err(e),
    }
}

/// All three contracts, checked at startup: a malformed built-in
/// address constant is reported rather than used.
pub fn contract_registry() -> (r: Result<Registry, AddressParseError>)
    ensures
        r is Ok <==> spec_parse_address(weth_address_hex()) is Some && spec_parse_address(
            scm_address_hex(),
        ) is Some && spec_parse_address(ico_address_hex()) is Some,
        r is Ok ==> r->Ok_0.token.address.bytes@ == spec_parse_address(weth_address_hex())->0
            && r->Ok_0.token.address.wf() && r->Ok_0.token.methods@ == spec_erc20_methods()
            && r->Ok_0.scm.address.bytes@ == spec_parse_address(scm_address_hex())->0
            && r->Ok_0.scm.address.wf() && r->Ok_0.scm.methods@ == spec_erc20_methods()
            && r->Ok_0.ico.address.bytes@ == spec_parse_address(ico_address_hex())->0
            && r->Ok_0.ico.address.wf() && r->Ok_0.ico.methods@ == spec_ico_methods(),
{
    let token = match weth_contract() {
        Ok(c) => c,
        Err(e) => {
            return Err(e);
        },
    };
    let scm = match scm_contract() {
        Ok(c) => c,
        Err(e) => {
            return Err(e);
        },
    };
    let ico = match ico_contract() {
        Ok(c) => c,
        Err(e) => {
            return Err(e);
        },
    };
    Ok(Registry { token, scm, ico })
}

} // verus!

//! Account addresses: twenty bytes, written as forty hex digits with an
//! optional `0x` prefix.

use vstd::prelude::*;
use crate::hexdec::{hex_ok, hex_decode, spec_hex_decode, strip_0x, strip_0x_prefix};

verus! {

/// Why an address string could not be turned into address bytes.
#[derive(Clone, Copy, Debug, PartialEq, Eq, Structural)]
pub enum AddressParseError {
    /// After removing an optional `0x` prefix, the string is not forty
    /// hex digits.
    MalformedAddress,
}

/// The twenty-byte identifier of a wallet or contract.
#[derive(Debug)]
pub struct AccountAddress {
    /// The address, as its twenty bytes.
    pub bytes: Vec<u8>,
}

impl AccountAddress {
    /// An address is exactly twenty bytes.
    pub open spec fn wf(self) -> bool {
        self.bytes@.len() == 20
    }
}

impl Clone for AccountAddress {
    fn clone(&self) -> (r: Self)
        ensures
            r.bytes@ == self.bytes@,
    {
        AccountAddress { bytes: clone_bytes(&self.bytes) }
    }
}

/// Copy a byte vector.
fn clone_bytes(v: &Vec<u8>) -> (r: Vec<u8>)
    ensures
        r@ == v@,
{
    let mut out: Vec<u8> = Vec::new();
    let mut i: usize = 0;
    while i < v.len()
        invariant
            i <= v@.len(),
            out@ == v@.subrange(0, i as int),
        decreases v@.len() - i,
    {
        out.push(v[i]);
        proof {
            assert(out@ =~= v@.subrange(0, i + 1));
        }
        i = i + 1;
    }
    proof {
        assert(v@.subrange(0, v@.len() as int) =~= v@);
    }
    out
}

/// The address bytes denoted by an address string: forty hex digits
/// with an optional `0x` prefix.
pub open spec fn spec_parse_address(s: Seq<u8>) -> Option<Seq<u8>> {
    let t = strip_0x(s);
    if t.len() == 40 && hex_ok(t) {
        Some(spec_hex_decode(t))
    } else {
        None
    }
}

/// Parse an address string into its twenty bytes.
pub fn parse_address(s: &[u8]) -> (r: Result<AccountAddress, AddressParseError>)
    ensures
        r is Ok <==> spec_parse_address(s@) is Some,
        r is Ok ==> Some(r->Ok_0.bytes@) == spec_parse_address(s@) && r->Ok_0.wf(),
        r is Err ==> r->Err_0 == AddressParseError::MalformedAddress,
{
    let stripped = strip_0x_prefix(s);
    if stripped.len() != 40 {
        return Err(AddressParseError::MalformedAddress);
    }
    match hex_decode(stripped) {
        Some(bytes) => {
            proof {
                crate::hexdec::lemma_hex_decode_len(stripped@);
            }
            Ok(AccountAddress { bytes })
        },
        None => Err(AddressParseError::MalformedAddress),
    }
}

} // verus!

use vstd::prelude::*;

use fvm_shared::address::Address;

verus! {

/// Whether `key` is the byte form of a well-formed address.
pub uninterp spec fn address_parses(key: Seq<u8>) -> bool;

/// The protocol byte that marks an address assigned on chain by ID.
pub const ID_PROTOCOL: u8 = 0;

#[verifier::external_type_specification]
#[verifier::external_body]
pub struct ExAddressError(fvm_shared::address::Error);

/// Relies on `Address::from_bytes` of fvm_shared: whether the bytes decode,
/// and, as its source shows, that a decoded key has a protocol byte and a
/// payload, and a known protocol byte first.
#[verifier::external_body]
pub(crate) fn parse_address(key: &Vec<u8>) -> (r: Result<(), fvm_shared::address::Error>)
    ensures
        r is Ok == address_parses(key@),
        r is Ok ==> key@.len() >= 2 && key@[0] <= 4,
{
    Address::from_bytes(key).map(|_| ())
}

/// Relies on `Address::from_bytes` and the `Display` of fvm_shared's
/// `Address`. The text begins with the prefix of the process-wide current
/// network, so nothing is stated of it but that it is not empty.
#[verifier::external_body]
pub(crate) fn address_string(key: &Vec<u8>) -> (r: String)
    requires
        address_parses(key@),
    ensures
        r@.len() > 0,
{
    match Address::from_bytes(key) {
        Ok(a) => a.to_string(),
        Err(_) => String::new(),
    }
}

/// Whether the decoded key uses the ID protocol.
pub open spec fn is_id_key(key: Seq<u8>) -> bool {
    key.len() > 0 && key[0] == ID_PROTOCOL
}

} // verus!

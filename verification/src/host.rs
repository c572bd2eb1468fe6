//! The Soroban host types and calls that the guards rely on.

use vstd::prelude::*;

verus! {

/// The contract's handle to the Soroban host.
#[verifier::external_type_specification]
#[verifier::external_body]
pub struct ExEnv(soroban_sdk::Env);

/// A Soroban address, a handle to an object that the host holds.
#[verifier::external_type_specification]
#[verifier::external_body]
pub struct ExAddress(soroban_sdk::Address);

/// A fixed-length byte array that the host holds.
#[verifier::external_type_specification]
#[verifier::external_body]
pub struct ExBytesN<const N: usize>(soroban_sdk::BytesN<N>);

/// Calls `soroban_sdk::Env::ledger` and then `Ledger::timestamp`: the close
/// time of the current ledger, in seconds since the Unix epoch. The value is
/// ledger state kept by the host, so nothing is claimed of it.
#[verifier::external_body]
pub(crate) fn ledger_timestamp(env: &soroban_sdk::Env) -> u64 {
    env.ledger().timestamp()
}

/// Calls `PartialEq::eq` on two `soroban_sdk::Address` values, which asks
/// the host to compare the addresses (`Ord::cmp`, through the host's object
/// comparison). `Address` implements `Eq`, so the comparison is reflexive:
/// the one claim is that an address equals itself. Whether two different
/// handles name the same address depends on the objects the host holds, and
/// is left unsaid.
#[verifier::external_body]
pub(crate) fn addresses_equal(a: &soroban_sdk::Address, b: &soroban_sdk::Address) -> (r: bool)
    ensures
        *a == *b ==> r,
{
    a == b
}

/// Calls `soroban_sdk::BytesN::<32>::to_array`: the 32 bytes that the host
/// holds behind the handle. They are host state, so nothing is claimed of
/// them.
#[verifier::external_body]
pub(crate) fn bytes32_to_array(bytes: &soroban_sdk::BytesN<32>) -> [u8; 32] {
    bytes.to_array()
}

} // verus!

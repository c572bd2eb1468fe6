//! Guards that turn bad inputs into the matching `ContractError`.

use vstd::prelude::*;

use crate::error::ContractError;
use crate::host::{addresses_equal, bytes32_to_array, ledger_timestamp};

verus! {

/// Rejects an amount that is explicitly set to zero. `None` means "not
/// set" and is accepted; `Some(0)` indicates a bug in the caller.
pub fn require_no_leading_zero_amount(amount: Option<i128>) -> (r: Result<(), ContractError>)
    ensures
        r == (if amount == Some(0i128) {
            Err(ContractError::AmountExplicitlyZero)
        } else {
            Ok(())
        }),
{
    match amount {
        Some(0) => Err(ContractError::AmountExplicitlyZero),
        _ => Ok(()),
    }
}

/// Requires an amount to be strictly positive.
pub fn require_positive_amount(amount: i128) -> (r: Result<(), ContractError>)
    ensures
        r == (if amount <= 0 {
            Err(ContractError::AmountMustBePositive)
        } else {
            Ok(())
        }),
{
    if amount <= 0 {
        Err(ContractError::AmountMustBePositive)
    } else {
        Ok(())
    }
}

/// Rejects a caller-supplied timestamp that is strictly ahead of `now`, the
/// current ledger timestamp.
pub fn require_not_in_future(timestamp: u64, now: u64) -> (r: Result<(), ContractError>)
    ensures
        r == (if timestamp > now {
            Err(ContractError::TimestampInFuture)
        } else {
            Ok(())
        }),
{
    if timestamp > now {
        Err(ContractError::TimestampInFuture)
    } else {
        Ok(())
    }
}

/// Rejects a caller-supplied timestamp that is strictly ahead of the current
/// ledger timestamp, which it reads from the host: such a value could only
/// come from the future.
pub fn verify_no_future_ledger(env: &soroban_sdk::Env, timestamp: u64) -> (r: Result<
    (),
    ContractError,
>)
    ensures
        r == Ok::<(), ContractError>(()) || r == Err::<(), ContractError>(
            ContractError::TimestampInFuture,
        ),
        timestamp == 0 ==> r == Ok::<(), ContractError>(()),
{
    let now = ledger_timestamp(env);
    require_not_in_future(timestamp, now)
}

/// Whether every one of the bytes is zero.
pub open spec fn all_zero(bytes: Seq<u8>) -> bool {
    forall|i: int| 0 <= i < bytes.len() ==> bytes[i] == 0
}

/// Rejects 32 bytes that are all zero where a non-zero value is required.
pub fn require_non_zero_array(bytes: &[u8; 32]) -> (r: Result<(), ContractError>)
    ensures
        r == (if all_zero(bytes@) {
            Err(ContractError::ZeroBytes32)
        } else {
            Ok(())
        }),
{
    let mut i: usize = 0;
    while i < 32
        invariant
            i <= 32,
            bytes@.len() == 32,
            forall|j: int| 0 <= j < i ==> bytes@[j] == 0,
        decreases 32 - i,
    {
        if bytes[i] != 0 {
            return Ok(());
        }
        i = i + 1;
    }
    Err(ContractError::ZeroBytes32)
}

/// Rejects a host-held `BytesN<32>` argument whose bytes are all zero.
pub fn require_non_zero_bytes32(bytes: &soroban_sdk::BytesN<32>) -> (r: Result<(), ContractError>)
    ensures
        r == Ok::<(), ContractError>(()) || r == Err::<(), ContractError>(
            ContractError::ZeroBytes32,
        ),
{
    let array = bytes32_to_array(bytes);
    require_non_zero_array(&array)
}

/// The outcome of the lease-signer check, given whether the lease signer
/// and the calling actor are the same address.
pub fn lease_signer_outcome(signers_match: bool) -> (r: Result<(), ContractError>)
    ensures
        r == (if signers_match {
            Ok(())
        } else {
            Err(ContractError::LeaseSignerMismatch)
        }),
{
    if signers_match {
        Ok(())
    } else {
        Err(ContractError::LeaseSignerMismatch)
    }
}

/// Checks that the lease signer is the calling actor, comparing the two
/// addresses on the host. The same address as lease signer and actor always
/// passes.
pub fn check_lease_signer(lease: &soroban_sdk::Address, actor: &soroban_sdk::Address) -> (r: Result<
    (),
    ContractError,
>)
    ensures
        r == Ok::<(), ContractError>(()) || r == Err::<(), ContractError>(
            ContractError::LeaseSignerMismatch,
        ),
        *lease == *actor ==> r == Ok::<(), ContractError>(()),
{
    let signers_match = addresses_equal(lease, actor);
    lease_signer_outcome(signers_match)
}

} // verus!

//! Properties that hold of every error at once.

use vstd::prelude::*;

use crate::category::{category_of_code, ErrorCategory};
use crate::error::ContractError;

verus! {

/// Wire codes are unique: no two errors share a code, so a code read off
/// the wire names exactly one error.
pub proof fn lemma_codes_unique(a: ContractError, b: ContractError)
    requires
        a.spec_code() == b.spec_code(),
    ensures
        a == b,
{
}

/// Every wire code lies in the block of some category, 1 through 799, and
/// each error's code lies in the block of its own category.
pub proof fn lemma_code_blocks(e: ContractError)
    ensures
        1 <= e.spec_code() <= 799,
        category_of_code(e.spec_code() as int) == Some(e.spec_category()),
{
}

/// Recoverability by category: every arithmetic error and every
/// payload-binding mismatch is fatal; every initialization, authorization,
/// attestation and registry error is recoverable.
pub proof fn lemma_recoverability_by_category(e: ContractError)
    ensures
        e.spec_category() == ErrorCategory::Arithmetic ==> !e.spec_is_recoverable(),
        e.is_payload_mismatch() ==> !e.spec_is_recoverable(),
        e.spec_category() == ErrorCategory::Initialization ==> e.spec_is_recoverable(),
        e.spec_category() == ErrorCategory::Authorization ==> e.spec_is_recoverable(),
        e.spec_category() == ErrorCategory::Attestation ==> e.spec_is_recoverable(),
        e.spec_category() == ErrorCategory::Registry ==> e.spec_is_recoverable(),
{
}

/// Whether every character is printable ASCII, space through tilde.
pub open spec fn is_printable_ascii(s: Seq<char>) -> bool {
    forall|i: int| 0 <= i < s.len() ==> ' ' <= #[trigger] s[i] <= '~'
}

/// Every description is non-empty printable ASCII, and no two errors share
/// one; shown from the text of the description literals.
proof fn descriptions_text()
    ensures
        forall|e: ContractError|
            #![trigger e.spec_description()]
            e.spec_description().len() > 0 && is_printable_ascii(e.spec_description()),
        forall|a: ContractError, b: ContractError|
            #![trigger a.spec_description(), b.spec_description()]
            a != b ==> a.spec_description() != b.spec_description(),
{
    reveal_strlit("Contract has not been initialized");
    reveal_strlit("Contract has already been initialized");
    reveal_strlit("Caller is not the admin");
    reveal_strlit("Caller is not the bond owner");
    reveal_strlit("Caller is not an authorized attester");
    reveal_strlit("Only the original attester can revoke");
    reveal_strlit("Caller is not a registered multi-sig signer");
    reveal_strlit("Caller is neither admin nor an authorized depositor");
    reveal_strlit("Contract is paused");
    reveal_strlit("Borrows are frozen: new bond creation and top-ups are not allowed");
    reveal_strlit("Actor did not hold the required role at the specified ledger timestamp");
    reveal_strlit("Pause proposal action is invalid");
    reveal_strlit("Not enough approvals to execute proposal");
    reveal_strlit("Admin is currently suspended");
    reveal_strlit("Input BytesN<32> argument is all-zero");
    reveal_strlit("Lease signer must match calling actor");
    reveal_strlit("No bond exists for the supplied identity");
    reveal_strlit("Bond is not in an active state");
    reveal_strlit("Insufficient balance for withdrawal");
    reveal_strlit("Slash amount exceeds the bonded amount");
    reveal_strlit("Storage cap for attestations or slash history reached");
    reveal_strlit("Lock-up period has not yet expired");
    reveal_strlit("Bond is not configured as a rolling bond");
    reveal_strlit("A withdrawal has already been requested for this bond");
    reveal_strlit("Reentrancy detected; call rejected");
    reveal_strlit("Signature/operation deadline has passed");
    reveal_strlit("Nonce is replayed or out of order");
    reveal_strlit("Attester stake cannot be negative");
    reveal_strlit("Early-exit configuration has not been set for this bond");
    reveal_strlit("Penalty bps must be in range 0-10000");
    reveal_strlit("Resulting leverage exceeds the configured maximum");
    reveal_strlit("Token transfer resulted in different amount than requested (fee-on-transfer tokens not supported)");
    reveal_strlit("Token decimals are outside the supported normalization range");
    reveal_strlit("Bond amount must be strictly positive (> 0)");
    reveal_strlit("Amount argument is explicitly set to zero, which is a bug (use Option to distinguish not-set from zero)");
    reveal_strlit("Bond duration must be strictly positive (> 0)");
    reveal_strlit("Rolling-bond notice_period_duration must be > 0 and <= duration");
    reveal_strlit("Bond already exists for this identity");
    reveal_strlit("Token address is not in the set of accepted tokens");
    reveal_strlit("Idempotency key has already been used for this operation");
    reveal_strlit("Bond storage drift detected; bonded/slashed or attestation counters inconsistent");
    reveal_strlit("Empty or whitespace-only currency symbol");
    reveal_strlit("Slash treasury address has not been configured");
    reveal_strlit("Pagination cursor is out of range (cursor >= registry_slots)");
    reveal_strlit("Batch input exceeds the maximum allowed size");
    reveal_strlit("Batch input must contain at least one item");
    reveal_strlit("Attestation already exists from this attester");
    reveal_strlit("No attestation found for the given key");
    reveal_strlit("Attestation has already been revoked");
    reveal_strlit("Attestation weight must be positive");
    reveal_strlit("Attestation weight exceeds the configured maximum");
    reveal_strlit("Identity has already been registered in the registry");
    reveal_strlit("Bond contract address has already been registered");
    reveal_strlit("Identity is not registered in the registry");
    reveal_strlit("Bond contract is not registered in the registry");
    reveal_strlit("Record is already in the deactivated state");
    reveal_strlit("Record is already in the active state");
    reveal_strlit("Provided contract address is not a deployed contract");
    reveal_strlit("Contract code hash verification failed during trustless registration");
    reveal_strlit("Bond contract does not support required interface");
    reveal_strlit("Delegation expiry must be in the future");
    reveal_strlit("No delegation found for the given key");
    reveal_strlit("Delegation has already been revoked");
    reveal_strlit("Delegation expiry exceeds the maximum allowed lifetime");
    reveal_strlit("Delegation is not active (revoked or expired)");
    reveal_strlit("Unknown or unsupported signature scheme tag");
    reveal_strlit("Verifier already registered for the given scheme tag");
    reveal_strlit("No verifier registered for the given scheme tag");
    reveal_strlit("Signature verification failed for the given scheme and payload");
    reveal_strlit("Post-expiry revocation attempted outside the configured grace window");
    reveal_strlit("Cleanup attempted on a delegation that is not expired yet");
    reveal_strlit("Signed payload ledger_number is older than MAX_PAYLOAD_AGE_LEDGERS ledgers");
    reveal_strlit("Off-chain promise hash does not match on-chain execution");
    reveal_strlit("Payload domain tag does not match expected");
    reveal_strlit("Payload owner does not match expected caller");
    reveal_strlit("Payload target does not match expected action");
    reveal_strlit("Payload contract_id does not match current contract");
    reveal_strlit("No pending admin transfer exists");
    reveal_strlit("Proposed admin is the zero or identity address");
    reveal_strlit("Proposed admin is the same as the current admin");
    reveal_strlit("Timelock delay has not yet elapsed");
    reveal_strlit("Emergency drain requires contract to be paused and timelock window to have elapsed");
    reveal_strlit("Supplied timestamp or ledger number is ahead of the current ledger");
    reveal_strlit("Amount must be strictly positive");
    reveal_strlit("Threshold cannot exceed the current signer count");
    reveal_strlit("Treasury balance is insufficient for withdrawal");
    reveal_strlit("Withdrawal proposal not found");
    reveal_strlit("Withdrawal proposal has already been executed");
    reveal_strlit("Proposal does not have enough approvals to execute");
    reveal_strlit("Flashloan callback returned an invalid magic value");
    reveal_strlit("Flashloan principal plus fee was not fully repaid");
    reveal_strlit("Withdrawal proposal has expired");
    reveal_strlit("Settled withdrawal amount fell below the caller's minimum (slippage)");
    reveal_strlit("Payment beneficiary does not match the expected treasury address");
    reveal_strlit("Integer overflow in checked arithmetic");
    reveal_strlit("Integer underflow in checked arithmetic");
    reveal_strlit("Division by a zero denominator");
    assert forall|a: ContractError, b: ContractError|
        a != b implies #[trigger] a.spec_description() != #[trigger] b.spec_description() by {
        let da = a.spec_description();
        let db = b.spec_description();
        if da == db {
            // Length, first character and fifteenth character already
            // single out each description.
            assert(da.len() == db.len() && da[0] == db[0] && da[14] == db[14]);
        }
    }
}

/// Every description is a non-empty line of printable ASCII, safe for
/// logging and display.
pub proof fn lemma_descriptions_printable(e: ContractError)
    ensures
        e.spec_description().len() > 0,
        is_printable_ascii(e.spec_description()),
{
    descriptions_text();
}

/// Descriptions tell errors apart: two different errors never share one.
pub proof fn lemma_descriptions_distinct(a: ContractError, b: ContractError)
    requires
        a != b,
    ensures
        a.spec_description() != b.spec_description(),
{
    descriptions_text();
}

} // verus!

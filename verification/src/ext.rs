//! Category, description and recoverability of each error.

use vstd::prelude::*;

use crate::category::{category_of_code, ErrorCategory};
use crate::error::ContractError;

verus! {

impl ContractError {
    /// One of the payload-binding mismatches that Bond and Delegation share
    /// (codes 219-221 and 225, in the Bond block).
    pub open spec fn is_payload_mismatch(self) -> bool {
        ||| self is DomainMismatch
        ||| self is OwnerMismatch
        ||| self is TargetMismatch
        ||| self is ContractIdMismatch
    }

    /// The category of an error: the one whose block holds its code.
    pub open spec fn spec_category(self) -> ErrorCategory {
        category_of_code(self.spec_code() as int).unwrap()
    }

    /// A fatal error: a code-level fault (every arithmetic error, or a
    /// detected invariant violation), a security halt, a cryptographic or
    /// payload-binding failure, a misbehaving flash-loan callback, or a
    /// capacity that only an operator can restore. Retrying the same input
    /// cannot succeed.
    pub open spec fn is_fatal(self) -> bool {
        ||| self.spec_category() == ErrorCategory::Arithmetic
        ||| self.is_payload_mismatch()
        ||| self is StorageCapReached
        ||| self is ReentrancyDetected
        ||| self is InvariantViolation
        ||| self is UnknownScheme
        ||| self is VerificationFailed
        ||| self is RevocationGraceExpired
        ||| self is PromiseNotKept
        ||| self is InvalidFlashLoanCallback
        ||| self is FlashLoanRepaymentFailed
    }

    /// Whether a caller can fix its input, or wait for state to change, and
    /// then retry successfully.
    pub open spec fn spec_is_recoverable(self) -> bool {
        !self.is_fatal()
    }

    /// The description of an error, for logging and display.
    pub open spec fn spec_description(self) -> Seq<char> {
        match self {
            ContractError::NotInitialized => "Contract has not been initialized"@,
            ContractError::AlreadyInitialized => "Contract has already been initialized"@,
            ContractError::NotAdmin => "Caller is not the admin"@,
            ContractError::NotBondOwner => "Caller is not the bond owner"@,
            ContractError::UnauthorizedAttester => "Caller is not an authorized attester"@,
            ContractError::NotOriginalAttester => "Only the original attester can revoke"@,
            ContractError::NotSigner => "Caller is not a registered multi-sig signer"@,
            ContractError::UnauthorizedDepositor => "Caller is neither admin nor an authorized depositor"@,
            ContractError::ContractPaused => "Contract is paused"@,
            ContractError::BorrowFrozen => "Borrows are frozen: new bond creation and top-ups are not allowed"@,
            ContractError::RoleNotHeldAtLedger => "Actor did not hold the required role at the specified ledger timestamp"@,
            ContractError::InvalidPauseAction => "Pause proposal action is invalid"@,
            ContractError::InsufficientSignatures => "Not enough approvals to execute proposal"@,
            ContractError::AdminSuspended => "Admin is currently suspended"@,
            ContractError::ZeroBytes32 => "Input BytesN<32> argument is all-zero"@,
            ContractError::LeaseSignerMismatch => "Lease signer must match calling actor"@,
            ContractError::BondNotFound => "No bond exists for the supplied identity"@,
            ContractError::BondNotActive => "Bond is not in an active state"@,
            ContractError::InsufficientBalance => "Insufficient balance for withdrawal"@,
            ContractError::SlashExceedsBond => "Slash amount exceeds the bonded amount"@,
            ContractError::StorageCapReached => "Storage cap for attestations or slash history reached"@,
            ContractError::LockupNotExpired => "Lock-up period has not yet expired"@,
            ContractError::NotRollingBond => "Bond is not configured as a rolling bond"@,
            ContractError::WithdrawalAlreadyRequested => "A withdrawal has already been requested for this bond"@,
            ContractError::ReentrancyDetected => "Reentrancy detected; call rejected"@,
            ContractError::SignatureExpired => "Signature/operation deadline has passed"@,
            ContractError::InvalidNonce => "Nonce is replayed or out of order"@,
            ContractError::NegativeStake => "Attester stake cannot be negative"@,
            ContractError::EarlyExitConfigNotSet => "Early-exit configuration has not been set for this bond"@,
            ContractError::InvalidPenaltyBps => "Penalty bps must be in range 0-10000"@,
            ContractError::LeverageExceeded => "Resulting leverage exceeds the configured maximum"@,
            ContractError::UnsupportedToken => "Token transfer resulted in different amount than requested (fee-on-transfer tokens not supported)"@,
            ContractError::UnsupportedDecimals => "Token decimals are outside the supported normalization range"@,
            ContractError::InvalidBondAmount => "Bond amount must be strictly positive (> 0)"@,
            ContractError::AmountExplicitlyZero => "Amount argument is explicitly set to zero, which is a bug (use Option to distinguish not-set from zero)"@,
            ContractError::InvalidBondDuration => "Bond duration must be strictly positive (> 0)"@,
            ContractError::InvalidNoticePeriod => "Rolling-bond notice_period_duration must be > 0 and <= duration"@,
            ContractError::BondAlreadyExists => "Bond already exists for this identity"@,
            ContractError::UnauthorizedToken => "Token address is not in the set of accepted tokens"@,
            ContractError::DuplicateIdempotencyKey => "Idempotency key has already been used for this operation"@,
            ContractError::InvariantViolation => "Bond storage drift detected; bonded/slashed or attestation counters inconsistent"@,
            ContractError::InvalidCurrency => "Empty or whitespace-only currency symbol"@,
            ContractError::TreasuryNotConfigured => "Slash treasury address has not been configured"@,
            ContractError::CursorOutOfRange => "Pagination cursor is out of range (cursor >= registry_slots)"@,
            ContractError::BatchTooLarge => "Batch input exceeds the maximum allowed size"@,
            ContractError::EmptyBatch => "Batch input must contain at least one item"@,
            ContractError::DuplicateAttestation => "Attestation already exists from this attester"@,
            ContractError::AttestationNotFound => "No attestation found for the given key"@,
            ContractError::AttestationAlreadyRevoked => "Attestation has already been revoked"@,
            ContractError::InvalidAttestationWeight => "Attestation weight must be positive"@,
            ContractError::AttestationWeightExceedsMax => "Attestation weight exceeds the configured maximum"@,
            ContractError::IdentityAlreadyRegistered => "Identity has already been registered in the registry"@,
            ContractError::BondContractAlreadyRegistered => "Bond contract address has already been registered"@,
            ContractError::IdentityNotRegistered => "Identity is not registered in the registry"@,
            ContractError::BondContractNotRegistered => "Bond contract is not registered in the registry"@,
            ContractError::AlreadyDeactivated => "Record is already in the deactivated state"@,
            ContractError::AlreadyActive => "Record is already in the active state"@,
            ContractError::InvalidContractAddress => "Provided contract address is not a deployed contract"@,
            ContractError::ContractCodeVerificationFailed => "Contract code hash verification failed during trustless registration"@,
            ContractError::UnsupportedInterface => "Bond contract does not support required interface"@,
            ContractError::ExpiryInPast => "Delegation expiry must be in the future"@,
            ContractError::DelegationNotFound => "No delegation found for the given key"@,
            ContractError::AlreadyRevoked => "Delegation has already been revoked"@,
            ContractError::DelegationExpiryTooLong => "Delegation expiry exceeds the maximum allowed lifetime"@,
            ContractError::DelegationInactive => "Delegation is not active (revoked or expired)"@,
            ContractError::UnknownScheme => "Unknown or unsupported signature scheme tag"@,
            ContractError::VerifierAlreadyRegistered => "Verifier already registered for the given scheme tag"@,
            ContractError::VerifierNotRegistered => "No verifier registered for the given scheme tag"@,
            ContractError::VerificationFailed => "Signature verification failed for the given scheme and payload"@,
            ContractError::RevocationGraceExpired => "Post-expiry revocation attempted outside the configured grace window"@,
            ContractError::DelegationNotExpired => "Cleanup attempted on a delegation that is not expired yet"@,
            ContractError::PayloadTooOld => "Signed payload ledger_number is older than MAX_PAYLOAD_AGE_LEDGERS ledgers"@,
            ContractError::PromiseNotKept => "Off-chain promise hash does not match on-chain execution"@,
            ContractError::DomainMismatch => "Payload domain tag does not match expected"@,
            ContractError::OwnerMismatch => "Payload owner does not match expected caller"@,
            ContractError::TargetMismatch => "Payload target does not match expected action"@,
            ContractError::ContractIdMismatch => "Payload contract_id does not match current contract"@,
            ContractError::NoPendingAdmin => "No pending admin transfer exists"@,
            ContractError::InvalidAdminAddress => "Proposed admin is the zero or identity address"@,
            ContractError::AdminUnchanged => "Proposed admin is the same as the current admin"@,
            ContractError::TimelockNotReady => "Timelock delay has not yet elapsed"@,
            ContractError::EmergencyDrainNotPermitted => "Emergency drain requires contract to be paused and timelock window to have elapsed"@,
            ContractError::TimestampInFuture => "Supplied timestamp or ledger number is ahead of the current ledger"@,
            ContractError::AmountMustBePositive => "Amount must be strictly positive"@,
            ContractError::ThresholdExceedsSigners => "Threshold cannot exceed the current signer count"@,
            ContractError::InsufficientTreasuryBalance => "Treasury balance is insufficient for withdrawal"@,
            ContractError::ProposalNotFound => "Withdrawal proposal not found"@,
            ContractError::ProposalAlreadyExecuted => "Withdrawal proposal has already been executed"@,
            ContractError::InsufficientApprovals => "Proposal does not have enough approvals to execute"@,
            ContractError::InvalidFlashLoanCallback => "Flashloan callback returned an invalid magic value"@,
            ContractError::FlashLoanRepaymentFailed => "Flashloan principal plus fee was not fully repaid"@,
            ContractError::ProposalExpired => "Withdrawal proposal has expired"@,
            ContractError::SlippageExceeded => "Settled withdrawal amount fell below the caller's minimum (slippage)"@,
            ContractError::TreasuryBeneficiaryMismatch => "Payment beneficiary does not match the expected treasury address"@,
            ContractError::Overflow => "Integer overflow in checked arithmetic"@,
            ContractError::Underflow => "Integer underflow in checked arithmetic"@,
            ContractError::DivisionByZero => "Division by a zero denominator"@,
        }
    }
}

/// Category, description and recoverability of an error, for structured
/// logging, monitoring and off-chain display.
///
/// An error is recoverable when the caller can fix its input, or wait for
/// the state it observes to change, and then retry the same kind of
/// operation successfully. It is fatal when it shows a code-level fault, a
/// security halt, a cryptographic failure or a payload-binding mismatch:
/// clients should alert rather than retry.
pub trait ErrorExt {
    /// The category this error belongs to.
    fn category(&self) -> ErrorCategory;

    /// A static description, safe for logging or display.
    fn description(&self) -> &'static str;

    /// `true` where a caller can fix its input or wait and retry.
    fn is_recoverable(&self) -> bool;
}

impl ErrorExt for ContractError {
    fn category(&self) -> (c: ErrorCategory)
        ensures
            c == self.spec_category(),
    {
        match self {
            ContractError::NotInitialized
            | ContractError::AlreadyInitialized => ErrorCategory::Initialization,
            ContractError::NotAdmin
            | ContractError::NotBondOwner
            | ContractError::UnauthorizedAttester
            | ContractError::NotOriginalAttester
            | ContractError::NotSigner
            | ContractError::UnauthorizedDepositor
            | ContractError::ContractPaused
            | ContractError::BorrowFrozen
            | ContractError::InvalidPauseAction
            | ContractError::InsufficientSignatures
            | ContractError::AdminSuspended
            | ContractError::RoleNotHeldAtLedger
            | ContractError::ZeroBytes32
            | ContractError::TimestampInFuture => ErrorCategory::Authorization,
            ContractError::BondNotFound
            | ContractError::BondNotActive
            | ContractError::InsufficientBalance
            | ContractError::SlashExceedsBond
            | ContractError::LockupNotExpired
            | ContractError::NotRollingBond
            | ContractError::WithdrawalAlreadyRequested
            | ContractError::ReentrancyDetected
            | ContractError::InvalidNonce
            | ContractError::SignatureExpired
            | ContractError::NegativeStake
            | ContractError::EarlyExitConfigNotSet
            | ContractError::InvalidPenaltyBps
            | ContractError::LeverageExceeded
            | ContractError::UnsupportedToken
            | ContractError::UnsupportedDecimals
            | ContractError::InvalidBondAmount
            | ContractError::InvalidBondDuration
            | ContractError::InvalidNoticePeriod
            | ContractError::BondAlreadyExists
            | ContractError::UnauthorizedToken
            | ContractError::InvalidCurrency
            | ContractError::StorageCapReached
            | ContractError::TreasuryNotConfigured
            | ContractError::CursorOutOfRange
            | ContractError::BatchTooLarge
            | ContractError::EmptyBatch
            | ContractError::InvariantViolation
            | ContractError::AmountExplicitlyZero
            | ContractError::DuplicateIdempotencyKey => ErrorCategory::Bond,
            ContractError::DuplicateAttestation
            | ContractError::AttestationNotFound
            | ContractError::AttestationAlreadyRevoked
            | ContractError::InvalidAttestationWeight
            | ContractError::AttestationWeightExceedsMax => ErrorCategory::Attestation,
            ContractError::IdentityAlreadyRegistered
            | ContractError::BondContractAlreadyRegistered
            | ContractError::IdentityNotRegistered
            | ContractError::BondContractNotRegistered
            | ContractError::AlreadyDeactivated
            | ContractError::AlreadyActive
            | ContractError::InvalidContractAddress
            | ContractError::ContractCodeVerificationFailed
            | ContractError::UnsupportedInterface => ErrorCategory::Registry,
            ContractError::ExpiryInPast
            | ContractError::DelegationNotFound
            | ContractError::AlreadyRevoked
            | ContractError::DelegationExpiryTooLong
            | ContractError::UnknownScheme
            | ContractError::VerifierAlreadyRegistered
            | ContractError::VerifierNotRegistered
            | ContractError::VerificationFailed
            | ContractError::RevocationGraceExpired
            | ContractError::DelegationNotExpired
            | ContractError::DelegationInactive
            | ContractError::PayloadTooOld
            | ContractError::PromiseNotKept => ErrorCategory::Delegation,
            ContractError::AmountMustBePositive
            | ContractError::ThresholdExceedsSigners
            | ContractError::InsufficientTreasuryBalance
            | ContractError::ProposalNotFound
            | ContractError::ProposalAlreadyExecuted
            | ContractError::InsufficientApprovals
            | ContractError::InvalidFlashLoanCallback
            | ContractError::FlashLoanRepaymentFailed
            | ContractError::ProposalExpired
            | ContractError::SlippageExceeded
            | ContractError::TreasuryBeneficiaryMismatch => ErrorCategory::Treasury,
            ContractError::Overflow
            | ContractError::Underflow
            | ContractError::DivisionByZero => ErrorCategory::Arithmetic,
            ContractError::NoPendingAdmin
            | ContractError::InvalidAdminAddress
            | ContractError::AdminUnchanged
            | ContractError::TimelockNotReady
            | ContractError::EmergencyDrainNotPermitted
            | ContractError::LeaseSignerMismatch => ErrorCategory::Authorization,
            ContractError::DomainMismatch
            | ContractError::OwnerMismatch
            | ContractError::TargetMismatch
            | ContractError::ContractIdMismatch => ErrorCategory::Bond,
        }
    }

    fn description(&self) -> (d: &'static str)
        ensures
            d@ == self.spec_description(),
    {
        match self {
            ContractError::NotInitialized => "Contract has not been initialized",
            ContractError::AlreadyInitialized => "Contract has already been initialized",
            ContractError::NotAdmin => "Caller is not the admin",
            ContractError::NotBondOwner => "Caller is not the bond owner",
            ContractError::UnauthorizedAttester => "Caller is not an authorized attester",
            ContractError::NotOriginalAttester => "Only the original attester can revoke",
            ContractError::NotSigner => "Caller is not a registered multi-sig signer",
            ContractError::UnauthorizedDepositor => "Caller is neither admin nor an authorized depositor",
            ContractError::ContractPaused => "Contract is paused",
            ContractError::BorrowFrozen => "Borrows are frozen: new bond creation and top-ups are not allowed",
            ContractError::RoleNotHeldAtLedger => "Actor did not hold the required role at the specified ledger timestamp",
            ContractError::InvalidPauseAction => "Pause proposal action is invalid",
            ContractError::InsufficientSignatures => "Not enough approvals to execute proposal",
            ContractError::AdminSuspended => "Admin is currently suspended",
            ContractError::ZeroBytes32 => "Input BytesN<32> argument is all-zero",
            ContractError::LeaseSignerMismatch => "Lease signer must match calling actor",
            ContractError::BondNotFound => "No bond exists for the supplied identity",
            ContractError::BondNotActive => "Bond is not in an active state",
            ContractError::InsufficientBalance => "Insufficient balance for withdrawal",
            ContractError::SlashExceedsBond => "Slash amount exceeds the bonded amount",
            ContractError::StorageCapReached => "Storage cap for attestations or slash history reached",
            ContractError::LockupNotExpired => "Lock-up period has not yet expired",
            ContractError::NotRollingBond => "Bond is not configured as a rolling bond",
            ContractError::WithdrawalAlreadyRequested => "A withdrawal has already been requested for this bond",
            ContractError::ReentrancyDetected => "Reentrancy detected; call rejected",
            ContractError::SignatureExpired => "Signature/operation deadline has passed",
            ContractError::InvalidNonce => "Nonce is replayed or out of order",
            ContractError::NegativeStake => "Attester stake cannot be negative",
            ContractError::EarlyExitConfigNotSet => "Early-exit configuration has not been set for this bond",
            ContractError::InvalidPenaltyBps => "Penalty bps must be in range 0-10000",
            ContractError::LeverageExceeded => "Resulting leverage exceeds the configured maximum",
            ContractError::UnsupportedToken => "Token transfer resulted in different amount than requested (fee-on-transfer tokens not supported)",
            ContractError::UnsupportedDecimals => "Token decimals are outside the supported normalization range",
            ContractError::InvalidBondAmount => "Bond amount must be strictly positive (> 0)",
            ContractError::AmountExplicitlyZero => "Amount argument is explicitly set to zero, which is a bug (use Option to distinguish not-set from zero)",
            ContractError::InvalidBondDuration => "Bond duration must be strictly positive (> 0)",
            ContractError::InvalidNoticePeriod => "Rolling-bond notice_period_duration must be > 0 and <= duration",
            ContractError::BondAlreadyExists => "Bond already exists for this identity",
            ContractError::UnauthorizedToken => "Token address is not in the set of accepted tokens",
            ContractError::DuplicateIdempotencyKey => "Idempotency key has already been used for this operation",
            ContractError::InvariantViolation => "Bond storage drift detected; bonded/slashed or attestation counters inconsistent",
            ContractError::InvalidCurrency => "Empty or whitespace-only currency symbol",
            ContractError::TreasuryNotConfigured => "Slash treasury address has not been configured",
            ContractError::CursorOutOfRange => "Pagination cursor is out of range (cursor >= registry_slots)",
            ContractError::BatchTooLarge => "Batch input exceeds the maximum allowed size",
            ContractError::EmptyBatch => "Batch input must contain at least one item",
            ContractError::DuplicateAttestation => "Attestation already exists from this attester",
            ContractError::AttestationNotFound => "No attestation found for the given key",
            ContractError::AttestationAlreadyRevoked => "Attestation has already been revoked",
            ContractError::InvalidAttestationWeight => "Attestation weight must be positive",
            ContractError::AttestationWeightExceedsMax => "Attestation weight exceeds the configured maximum",
            ContractError::IdentityAlreadyRegistered => "Identity has already been registered in the registry",
            ContractError::BondContractAlreadyRegistered => "Bond contract address has already been registered",
            ContractError::IdentityNotRegistered => "Identity is not registered in the registry",
            ContractError::BondContractNotRegistered => "Bond contract is not registered in the registry",
            ContractError::AlreadyDeactivated => "Record is already in the deactivated state",
            ContractError::AlreadyActive => "Record is already in the active state",
            ContractError::InvalidContractAddress => "Provided contract address is not a deployed contract",
            ContractError::ContractCodeVerificationFailed => "Contract code hash verification failed during trustless registration",
            ContractError::UnsupportedInterface => "Bond contract does not support required interface",
            ContractError::ExpiryInPast => "Delegation expiry must be in the future",
            ContractError::DelegationNotFound => "No delegation found for the given key",
            ContractError::AlreadyRevoked => "Delegation has already been revoked",
            ContractError::DelegationExpiryTooLong => "Delegation expiry exceeds the maximum allowed lifetime",
            ContractError::DelegationInactive => "Delegation is not active (revoked or expired)",
            ContractError::UnknownScheme => "Unknown or unsupported signature scheme tag",
            ContractError::VerifierAlreadyRegistered => "Verifier already registered for the given scheme tag",
            ContractError::VerifierNotRegistered => "No verifier registered for the given scheme tag",
            ContractError::VerificationFailed => "Signature verification failed for the given scheme and payload",
            ContractError::RevocationGraceExpired => "Post-expiry revocation attempted outside the configured grace window",
            ContractError::DelegationNotExpired => "Cleanup attempted on a delegation that is not expired yet",
            ContractError::PayloadTooOld => "Signed payload ledger_number is older than MAX_PAYLOAD_AGE_LEDGERS ledgers",
            ContractError::PromiseNotKept => "Off-chain promise hash does not match on-chain execution",
            ContractError::DomainMismatch => "Payload domain tag does not match expected",
            ContractError::OwnerMismatch => "Payload owner does not match expected caller",
            ContractError::TargetMismatch => "Payload target does not match expected action",
            ContractError::ContractIdMismatch => "Payload contract_id does not match current contract",
            ContractError::NoPendingAdmin => "No pending admin transfer exists",
            ContractError::InvalidAdminAddress => "Proposed admin is the zero or identity address",
            ContractError::AdminUnchanged => "Proposed admin is the same as the current admin",
            ContractError::TimelockNotReady => "Timelock delay has not yet elapsed",
            ContractError::EmergencyDrainNotPermitted => "Emergency drain requires contract to be paused and timelock window to have elapsed",
            ContractError::TimestampInFuture => "Supplied timestamp or ledger number is ahead of the current ledger",
            ContractError::AmountMustBePositive => "Amount must be strictly positive",
            ContractError::ThresholdExceedsSigners => "Threshold cannot exceed the current signer count",
            ContractError::InsufficientTreasuryBalance => "Treasury balance is insufficient for withdrawal",
            ContractError::ProposalNotFound => "Withdrawal proposal not found",
            ContractError::ProposalAlreadyExecuted => "Withdrawal proposal has already been executed",
            ContractError::InsufficientApprovals => "Proposal does not have enough approvals to execute",
            ContractError::InvalidFlashLoanCallback => "Flashloan callback returned an invalid magic value",
            ContractError::FlashLoanRepaymentFailed => "Flashloan principal plus fee was not fully repaid",
            ContractError::ProposalExpired => "Withdrawal proposal has expired",
            ContractError::SlippageExceeded => "Settled withdrawal amount fell below the caller's minimum (slippage)",
            ContractError::TreasuryBeneficiaryMismatch => "Payment beneficiary does not match the expected treasury address",
            ContractError::Overflow => "Integer overflow in checked arithmetic",
            ContractError::Underflow => "Integer underflow in checked arithmetic",
            ContractError::DivisionByZero => "Division by a zero denominator",
        }
    }

    fn is_recoverable(&self) -> (r: bool)
        ensures
            r == self.spec_is_recoverable(),
    {
        match self {
            ContractError::NotInitialized
            | ContractError::AlreadyInitialized => true,
            ContractError::NotAdmin
            | ContractError::NotBondOwner
            | ContractError::UnauthorizedAttester
            | ContractError::NotOriginalAttester
            | ContractError::NotSigner
            | ContractError::UnauthorizedDepositor
            | ContractError::ContractPaused
            | ContractError::BorrowFrozen
            | ContractError::InvalidPauseAction
            | ContractError::InsufficientSignatures
            | ContractError::AdminSuspended
            | ContractError::NoPendingAdmin
            | ContractError::InvalidAdminAddress
            | ContractError::AdminUnchanged
            | ContractError::TimelockNotReady
            | ContractError::EmergencyDrainNotPermitted
            | ContractError::RoleNotHeldAtLedger
            | ContractError::LeaseSignerMismatch
            | ContractError::ZeroBytes32 => true,
            ContractError::TimestampInFuture => true,
            ContractError::BondNotFound
            | ContractError::BondNotActive
            | ContractError::InsufficientBalance
            | ContractError::SlashExceedsBond
            | ContractError::LockupNotExpired
            | ContractError::NotRollingBond
            | ContractError::WithdrawalAlreadyRequested
            | ContractError::InvalidNonce
            | ContractError::SignatureExpired
            | ContractError::NegativeStake
            | ContractError::EarlyExitConfigNotSet
            | ContractError::InvalidPenaltyBps
            | ContractError::LeverageExceeded
            | ContractError::UnsupportedToken
            | ContractError::UnsupportedDecimals
            | ContractError::InvalidBondAmount
            | ContractError::AmountExplicitlyZero
            | ContractError::InvalidBondDuration
            | ContractError::InvalidNoticePeriod
            | ContractError::BondAlreadyExists
            | ContractError::UnauthorizedToken
            | ContractError::InvalidCurrency
            | ContractError::DuplicateIdempotencyKey
            | ContractError::BatchTooLarge
            | ContractError::EmptyBatch => true,
            ContractError::StorageCapReached => false,
            ContractError::TreasuryNotConfigured => true,
            ContractError::CursorOutOfRange => true,
            ContractError::ReentrancyDetected => false,
            ContractError::InvariantViolation => false,
            ContractError::DomainMismatch
            | ContractError::OwnerMismatch
            | ContractError::TargetMismatch
            | ContractError::ContractIdMismatch => false,
            ContractError::DuplicateAttestation
            | ContractError::AttestationNotFound
            | ContractError::AttestationAlreadyRevoked
            | ContractError::InvalidAttestationWeight
            | ContractError::AttestationWeightExceedsMax => true,
            ContractError::IdentityAlreadyRegistered
            | ContractError::BondContractAlreadyRegistered
            | ContractError::IdentityNotRegistered
            | ContractError::BondContractNotRegistered
            | ContractError::AlreadyDeactivated
            | ContractError::AlreadyActive
            | ContractError::InvalidContractAddress
            | ContractError::ContractCodeVerificationFailed
            | ContractError::UnsupportedInterface => true,
            ContractError::ExpiryInPast
            | ContractError::DelegationNotFound
            | ContractError::AlreadyRevoked
            | ContractError::DelegationExpiryTooLong
            | ContractError::VerifierAlreadyRegistered
            | ContractError::VerifierNotRegistered
            | ContractError::DelegationNotExpired
            | ContractError::DelegationInactive
            | ContractError::PayloadTooOld => true,
            ContractError::UnknownScheme => false,
            ContractError::VerificationFailed => false,
            ContractError::RevocationGraceExpired => false,
            ContractError::PromiseNotKept => false,
            ContractError::AmountMustBePositive
            | ContractError::ThresholdExceedsSigners
            | ContractError::InsufficientTreasuryBalance
            | ContractError::ProposalNotFound
            | ContractError::ProposalAlreadyExecuted
            | ContractError::InsufficientApprovals
            | ContractError::ProposalExpired
            | ContractError::SlippageExceeded
            | ContractError::TreasuryBeneficiaryMismatch => true,
            ContractError::InvalidFlashLoanCallback => false,
            ContractError::FlashLoanRepaymentFailed => false,
            ContractError::Overflow
            | ContractError::Underflow
            | ContractError::DivisionByZero => false,
        }
    }
}

} // verus!

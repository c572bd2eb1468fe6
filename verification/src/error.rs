//! The shared error enum of the contracts and its wire codes.

use vstd::prelude::*;

verus! {

/// Canonical error enum shared by all Credence smart contracts.
///
/// Every variant has a wire-stable numeric code, given by `code`. The codes
/// are laid out in blocks of one hundred, one block per `ErrorCategory`:
/// 1-99 initialization, 100-199 authorization, 200-299 bond, 300-399
/// attestation, 400-499 registry, 500-599 delegation, 600-699 treasury,
/// 700-799 arithmetic.
#[derive(Clone, Copy, Debug, PartialEq, Eq, Structural)]
pub enum ContractError {
    /// Contract has not been initialized yet.
    NotInitialized,
    /// Contract has already been initialized and cannot be re-initialized.
    AlreadyInitialized,
    /// Caller is not the admin.
    NotAdmin,
    /// Caller is not the bond owner.
    NotBondOwner,
    /// Caller is not an authorized attester for this bond.
    UnauthorizedAttester,
    /// Caller is not the original attester who created the attestation.
    NotOriginalAttester,
    /// Caller is not a registered multi-sig signer.
    NotSigner,
    /// Caller is neither the admin nor an authorized depositor.
    UnauthorizedDepositor,
    /// Contract is currently paused and does not allow state mutations.
    ContractPaused,
    /// Borrows are currently frozen; new bond creation and top-ups are not allowed.
    BorrowFrozen,
    /// Actor did not hold the required role at the given ledger timestamp.
    RoleNotHeldAtLedger,
    /// Pause proposal action value is invalid.
    InvalidPauseAction,
    /// Not enough approvals to execute the proposal.
    InsufficientSignatures,
    /// The target admin is currently suspended (suspended_until > now).
    AdminSuspended,
    /// Input BytesN<32> argument is all-zero when a non-zero value is required.
    ZeroBytes32,
    /// Caller is not the required lease signer.
    LeaseSignerMismatch,
    /// No bond exists for the given address or key.
    BondNotFound,
    /// Bond is not in the active state required for this operation.
    BondNotActive,
    /// Caller balance is insufficient for the requested withdrawal.
    InsufficientBalance,
    /// The slash amount exceeds the bonded amount.
    SlashExceedsBond,
    /// Storage cap for attestations or slash history reached.
    StorageCapReached,
    /// Bond lock-up period has not yet expired.
    LockupNotExpired,
    /// Operation requires a rolling bond but this bond is not rolling.
    NotRollingBond,
    /// A withdrawal has already been requested for this bond.
    WithdrawalAlreadyRequested,
    /// Reentrancy was detected; the call is rejected.
    ReentrancyDetected,
    /// Signature or operation deadline has passed.
    SignatureExpired,
    /// Nonce is invalid - either replayed or out of order.
    InvalidNonce,
    /// Attester stake would go negative, which is not permitted.
    NegativeStake,
    /// Early-exit configuration has not been set for this bond.
    EarlyExitConfigNotSet,
    /// Penalty basis-points value must be in the range 0-10000.
    InvalidPenaltyBps,
    /// Resulting leverage exceeds the configured maximum.
    LeverageExceeded,
    /// Token transfer resulted in different amount than requested (fee-on-transfer tokens).
    UnsupportedToken,
    /// Token decimals are outside the supported range used for normalization.
    UnsupportedDecimals,
    /// Bond amount must be strictly positive (> 0).
    InvalidBondAmount,
    /// Amount argument is explicitly set to zero, which is a bug.
    AmountExplicitlyZero,
    /// Bond duration must be strictly positive (> 0).
    InvalidBondDuration,
    /// Rolling-bond notice_period_duration must be > 0 and <= duration.
    InvalidNoticePeriod,
    /// Bond already exists for this identity.
    BondAlreadyExists,
    /// Token address is not in the set of accepted tokens.
    UnauthorizedToken,
    /// An idempotency key has already been used for this operation.
    DuplicateIdempotencyKey,
    /// Post-write invariant self-check detected bond or attestation accounting drift.
    InvariantViolation,
    /// Empty or whitespace-only currency symbol.
    InvalidCurrency,
    /// Slash treasury address has not been configured.
    TreasuryNotConfigured,
    /// Pagination cursor is out of range (cursor >= registry_slots).
    CursorOutOfRange,
    /// Batch input exceeds the maximum allowed size constant.
    BatchTooLarge,
    /// Batch input is empty (len == 0) when at least one item is required.
    EmptyBatch,
    /// An attestation already exists from this attester for this bond.
    DuplicateAttestation,
    /// No attestation was found for the given key.
    AttestationNotFound,
    /// Attestation has already been revoked.
    AttestationAlreadyRevoked,
    /// Attestation weight must be a positive value.
    InvalidAttestationWeight,
    /// Attestation weight exceeds the configured maximum.
    AttestationWeightExceedsMax,
    /// Identity has already been registered in the registry.
    IdentityAlreadyRegistered,
    /// Bond contract address has already been registered.
    BondContractAlreadyRegistered,
    /// Identity is not registered in the registry.
    IdentityNotRegistered,
    /// Bond contract is not registered in the registry.
    BondContractNotRegistered,
    /// Identity or bond contract is already in the deactivated state.
    AlreadyDeactivated,
    /// Identity or bond contract is already in the active state.
    AlreadyActive,
    /// Provided contract address is not a deployed contract.
    InvalidContractAddress,
    /// Contract code hash verification failed during trustless registration.
    ContractCodeVerificationFailed,
    /// Bond contract does not support required interface.
    UnsupportedInterface,
    /// Delegation expiry timestamp must be in the future.
    ExpiryInPast,
    /// No delegation record was found for the given key.
    DelegationNotFound,
    /// Delegation has already been revoked.
    AlreadyRevoked,
    /// Delegation expiry timestamp exceeds the maximum allowed lifetime.
    DelegationExpiryTooLong,
    /// Delegation is not active (revoked or expired).
    DelegationInactive,
    /// Unknown or unsupported signature scheme tag.
    UnknownScheme,
    /// Verifier already registered for the given scheme tag.
    VerifierAlreadyRegistered,
    /// No verifier registered for the given scheme tag.
    VerifierNotRegistered,
    /// Signature verification failed for the given scheme and payload.
    VerificationFailed,
    /// Post-expiry revocation attempted outside the configured grace window.
    RevocationGraceExpired,
    /// Cleanup attempted on a delegation that is not expired yet.
    DelegationNotExpired,
    /// Signed operation payload is older than MAX_PAYLOAD_AGE_LEDGERS ledgers.
    PayloadTooOld,
    /// Off-chain promise hash does not match on-chain execution.
    PromiseNotKept,
    /// Payload domain tag does not match expected.
    DomainMismatch,
    /// Payload owner does not match expected caller.
    OwnerMismatch,
    /// Payload target does not match expected action.
    TargetMismatch,
    /// Payload contract_id does not match current contract.
    ContractIdMismatch,
    /// No pending admin transfer exists.
    NoPendingAdmin,
    /// Proposed admin is the zero/identity address.
    InvalidAdminAddress,
    /// Proposed admin is the same as the current admin.
    AdminUnchanged,
    /// Timelock delay has not yet elapsed.
    TimelockNotReady,
    /// Emergency drain is not permitted: contract must be paused and timelock window must have elapsed.
    EmergencyDrainNotPermitted,
    /// Supplied timestamp or ledger number is ahead of the current ledger.
    TimestampInFuture,
    /// Amount argument must be strictly positive (> 0).
    AmountMustBePositive,
    /// Approval threshold cannot exceed the current number of signers.
    ThresholdExceedsSigners,
    /// Treasury balance is insufficient for the requested withdrawal.
    InsufficientTreasuryBalance,
    /// Withdrawal proposal was not found for the given id.
    ProposalNotFound,
    /// Withdrawal proposal has already been executed.
    ProposalAlreadyExecuted,
    /// Proposal does not yet have enough approvals to execute.
    InsufficientApprovals,
    /// Flashloan callback returned an invalid magic value.
    InvalidFlashLoanCallback,
    /// Flashloan principal plus fee was not fully repaid.
    FlashLoanRepaymentFailed,
    /// Withdrawal proposal has expired and can no longer be approved or executed.
    ProposalExpired,
    /// Settled withdrawal amount fell below the caller's `min_amount_out`
    SlippageExceeded,
    /// Payment beneficiary does not match the expected treasury address.
    TreasuryBeneficiaryMismatch,
    /// Integer overflow detected during a checked arithmetic operation.
    Overflow,
    /// Integer underflow detected during a checked arithmetic operation.
    Underflow,
    /// Division (or remainder) by a zero denominator was attempted.
    DivisionByZero,
}

impl ContractError {
    /// The wire code of this error.
    pub open spec fn spec_code(self) -> u32 {
        match self {
            ContractError::NotInitialized => 1,
            ContractError::AlreadyInitialized => 2,
            ContractError::NotAdmin => 100,
            ContractError::NotBondOwner => 101,
            ContractError::UnauthorizedAttester => 102,
            ContractError::NotOriginalAttester => 103,
            ContractError::NotSigner => 104,
            ContractError::UnauthorizedDepositor => 105,
            ContractError::ContractPaused => 106,
            ContractError::BorrowFrozen => 114,
            ContractError::RoleNotHeldAtLedger => 116,
            ContractError::InvalidPauseAction => 107,
            ContractError::InsufficientSignatures => 108,
            ContractError::AdminSuspended => 113,
            ContractError::ZeroBytes32 => 109,
            ContractError::LeaseSignerMismatch => 119,
            ContractError::BondNotFound => 200,
            ContractError::BondNotActive => 201,
            ContractError::InsufficientBalance => 202,
            ContractError::SlashExceedsBond => 203,
            ContractError::StorageCapReached => 224,
            ContractError::LockupNotExpired => 204,
            ContractError::NotRollingBond => 205,
            ContractError::WithdrawalAlreadyRequested => 206,
            ContractError::ReentrancyDetected => 207,
            ContractError::SignatureExpired => 222,
            ContractError::InvalidNonce => 208,
            ContractError::NegativeStake => 209,
            ContractError::EarlyExitConfigNotSet => 210,
            ContractError::InvalidPenaltyBps => 211,
            ContractError::LeverageExceeded => 212,
            ContractError::UnsupportedToken => 213,
            ContractError::UnsupportedDecimals => 229,
            ContractError::InvalidBondAmount => 214,
            ContractError::AmountExplicitlyZero => 215,
            ContractError::InvalidBondDuration => 216,
            ContractError::InvalidNoticePeriod => 217,
            ContractError::BondAlreadyExists => 218,
            ContractError::UnauthorizedToken => 231,
            ContractError::DuplicateIdempotencyKey => 232,
            ContractError::InvariantViolation => 233,
            ContractError::InvalidCurrency => 234,
            ContractError::TreasuryNotConfigured => 223,
            ContractError::CursorOutOfRange => 226,
            ContractError::BatchTooLarge => 227,
            ContractError::EmptyBatch => 228,
            ContractError::DuplicateAttestation => 300,
            ContractError::AttestationNotFound => 301,
            ContractError::AttestationAlreadyRevoked => 302,
            ContractError::InvalidAttestationWeight => 303,
            ContractError::AttestationWeightExceedsMax => 304,
            ContractError::IdentityAlreadyRegistered => 400,
            ContractError::BondContractAlreadyRegistered => 401,
            ContractError::IdentityNotRegistered => 402,
            ContractError::BondContractNotRegistered => 403,
            ContractError::AlreadyDeactivated => 404,
            ContractError::AlreadyActive => 405,
            ContractError::InvalidContractAddress => 406,
            ContractError::ContractCodeVerificationFailed => 407,
            ContractError::UnsupportedInterface => 408,
            ContractError::ExpiryInPast => 500,
            ContractError::DelegationNotFound => 501,
            ContractError::AlreadyRevoked => 502,
            ContractError::DelegationExpiryTooLong => 503,
            ContractError::DelegationInactive => 511,
            ContractError::UnknownScheme => 504,
            ContractError::VerifierAlreadyRegistered => 505,
            ContractError::VerifierNotRegistered => 506,
            ContractError::VerificationFailed => 507,
            ContractError::RevocationGraceExpired => 508,
            ContractError::DelegationNotExpired => 509,
            ContractError::PayloadTooOld => 510,
            ContractError::PromiseNotKept => 512,
            ContractError::DomainMismatch => 225,
            ContractError::OwnerMismatch => 219,
            ContractError::TargetMismatch => 220,
            ContractError::ContractIdMismatch => 221,
            ContractError::NoPendingAdmin => 115,
            ContractError::InvalidAdminAddress => 110,
            ContractError::AdminUnchanged => 111,
            ContractError::TimelockNotReady => 112,
            ContractError::EmergencyDrainNotPermitted => 117,
            ContractError::TimestampInFuture => 118,
            ContractError::AmountMustBePositive => 600,
            ContractError::ThresholdExceedsSigners => 601,
            ContractError::InsufficientTreasuryBalance => 602,
            ContractError::ProposalNotFound => 603,
            ContractError::ProposalAlreadyExecuted => 604,
            ContractError::InsufficientApprovals => 605,
            ContractError::InvalidFlashLoanCallback => 606,
            ContractError::FlashLoanRepaymentFailed => 607,
            ContractError::ProposalExpired => 608,
            ContractError::SlippageExceeded => 609,
            ContractError::TreasuryBeneficiaryMismatch => 610,
            ContractError::Overflow => 700,
            ContractError::Underflow => 701,
            ContractError::DivisionByZero => 702,
        }
    }

    /// The wire code of this error.
    pub fn code(&self) -> (c: u32)
        ensures
            c == self.spec_code(),
    {
        match self {
            ContractError::NotInitialized => 1,
            ContractError::AlreadyInitialized => 2,
            ContractError::NotAdmin => 100,
            ContractError::NotBondOwner => 101,
            ContractError::UnauthorizedAttester => 102,
            ContractError::NotOriginalAttester => 103,
            ContractError::NotSigner => 104,
            ContractError::UnauthorizedDepositor => 105,
            ContractError::ContractPaused => 106,
            ContractError::BorrowFrozen => 114,
            ContractError::RoleNotHeldAtLedger => 116,
            ContractError::InvalidPauseAction => 107,
            ContractError::InsufficientSignatures => 108,
            ContractError::AdminSuspended => 113,
            ContractError::ZeroBytes32 => 109,
            ContractError::LeaseSignerMismatch => 119,
            ContractError::BondNotFound => 200,
            ContractError::BondNotActive => 201,
            ContractError::InsufficientBalance => 202,
            ContractError::SlashExceedsBond => 203,
            ContractError::StorageCapReached => 224,
            ContractError::LockupNotExpired => 204,
            ContractError::NotRollingBond => 205,
            ContractError::WithdrawalAlreadyRequested => 206,
            ContractError::ReentrancyDetected => 207,
            ContractError::SignatureExpired => 222,
            ContractError::InvalidNonce => 208,
            ContractError::NegativeStake => 209,
            ContractError::EarlyExitConfigNotSet => 210,
            ContractError::InvalidPenaltyBps => 211,
            ContractError::LeverageExceeded => 212,
            ContractError::UnsupportedToken => 213,
            ContractError::UnsupportedDecimals => 229,
            ContractError::InvalidBondAmount => 214,
            ContractError::AmountExplicitlyZero => 215,
            ContractError::InvalidBondDuration => 216,
            ContractError::InvalidNoticePeriod => 217,
            ContractError::BondAlreadyExists => 218,
            ContractError::UnauthorizedToken => 231,
            ContractError::DuplicateIdempotencyKey => 232,
            ContractError::InvariantViolation => 233,
            ContractError::InvalidCurrency => 234,
            ContractError::TreasuryNotConfigured => 223,
            ContractError::CursorOutOfRange => 226,
            ContractError::BatchTooLarge => 227,
            ContractError::EmptyBatch => 228,
            ContractError::DuplicateAttestation => 300,
            ContractError::AttestationNotFound => 301,
            ContractError::AttestationAlreadyRevoked => 302,
            ContractError::InvalidAttestationWeight => 303,
            ContractError::AttestationWeightExceedsMax => 304,
            ContractError::IdentityAlreadyRegistered => 400,
            ContractError::BondContractAlreadyRegistered => 401,
            ContractError::IdentityNotRegistered => 402,
            ContractError::BondContractNotRegistered => 403,
            ContractError::AlreadyDeactivated => 404,
            ContractError::AlreadyActive => 405,
            ContractError::InvalidContractAddress => 406,
            ContractError::ContractCodeVerificationFailed => 407,
            ContractError::UnsupportedInterface => 408,
            ContractError::ExpiryInPast => 500,
            ContractError::DelegationNotFound => 501,
            ContractError::AlreadyRevoked => 502,
            ContractError::DelegationExpiryTooLong => 503,
            ContractError::DelegationInactive => 511,
            ContractError::UnknownScheme => 504,
            ContractError::VerifierAlreadyRegistered => 505,
            ContractError::VerifierNotRegistered => 506,
            ContractError::VerificationFailed => 507,
            ContractError::RevocationGraceExpired => 508,
            ContractError::DelegationNotExpired => 509,
            ContractError::PayloadTooOld => 510,
            ContractError::PromiseNotKept => 512,
            ContractError::DomainMismatch => 225,
            ContractError::OwnerMismatch => 219,
            ContractError::TargetMismatch => 220,
            ContractError::ContractIdMismatch => 221,
            ContractError::NoPendingAdmin => 115,
            ContractError::InvalidAdminAddress => 110,
            ContractError::AdminUnchanged => 111,
            ContractError::TimelockNotReady => 112,
            ContractError::EmergencyDrainNotPermitted => 117,
            ContractError::TimestampInFuture => 118,
            ContractError::AmountMustBePositive => 600,
            ContractError::ThresholdExceedsSigners => 601,
            ContractError::InsufficientTreasuryBalance => 602,
            ContractError::ProposalNotFound => 603,
            ContractError::ProposalAlreadyExecuted => 604,
            ContractError::InsufficientApprovals => 605,
            ContractError::InvalidFlashLoanCallback => 606,
            ContractError::FlashLoanRepaymentFailed => 607,
            ContractError::ProposalExpired => 608,
            ContractError::SlippageExceeded => 609,
            ContractError::TreasuryBeneficiaryMismatch => 610,
            ContractError::Overflow => 700,
            ContractError::Underflow => 701,
            ContractError::DivisionByZero => 702,
        }
    }

    /// The error whose wire code is `code`, or `None` where no error has it.
    pub fn from_code(code: u32) -> (r: Option<ContractError>)
        ensures
            match r {
                Some(e) => e.spec_code() == code,
                None => forall|e: ContractError| #[trigger] e.spec_code() != code,
            },
    {
        match code {
            1 => Some(ContractError::NotInitialized),
            2 => Some(ContractError::AlreadyInitialized),
            100 => Some(ContractError::NotAdmin),
            101 => Some(ContractError::NotBondOwner),
            102 => Some(ContractError::UnauthorizedAttester),
            103 => Some(ContractError::NotOriginalAttester),
            104 => Some(ContractError::NotSigner),
            105 => Some(ContractError::UnauthorizedDepositor),
            106 => Some(ContractError::ContractPaused),
            107 => Some(ContractError::InvalidPauseAction),
            108 => Some(ContractError::InsufficientSignatures),
            109 => Some(ContractError::ZeroBytes32),
            110 => Some(ContractError::InvalidAdminAddress),
            111 => Some(ContractError::AdminUnchanged),
            112 => Some(ContractError::TimelockNotReady),
            113 => Some(ContractError::AdminSuspended),
            114 => Some(ContractError::BorrowFrozen),
            115 => Some(ContractError::NoPendingAdmin),
            116 => Some(ContractError::RoleNotHeldAtLedger),
            117 => Some(ContractError::EmergencyDrainNotPermitted),
            118 => Some(ContractError::TimestampInFuture),
            119 => Some(ContractError::LeaseSignerMismatch),
            200 => Some(ContractError::BondNotFound),
            201 => Some(ContractError::BondNotActive),
            202 => Some(ContractError::InsufficientBalance),
            203 => Some(ContractError::SlashExceedsBond),
            204 => Some(ContractError::LockupNotExpired),
            205 => Some(ContractError::NotRollingBond),
            206 => Some(ContractError::WithdrawalAlreadyRequested),
            207 => Some(ContractError::ReentrancyDetected),
            208 => Some(ContractError::InvalidNonce),
            209 => Some(ContractError::NegativeStake),
            210 => Some(ContractError::EarlyExitConfigNotSet),
            211 => Some(ContractError::InvalidPenaltyBps),
            212 => Some(ContractError::LeverageExceeded),
            213 => Some(ContractError::UnsupportedToken),
            214 => Some(ContractError::InvalidBondAmount),
            215 => Some(ContractError::AmountExplicitlyZero),
            216 => Some(ContractError::InvalidBondDuration),
            217 => Some(ContractError::InvalidNoticePeriod),
            218 => Some(ContractError::BondAlreadyExists),
            219 => Some(ContractError::OwnerMismatch),
            220 => Some(ContractError::TargetMismatch),
            221 => Some(ContractError::ContractIdMismatch),
            222 => Some(ContractError::SignatureExpired),
            223 => Some(ContractError::TreasuryNotConfigured),
            224 => Some(ContractError::StorageCapReached),
            225 => Some(ContractError::DomainMismatch),
            226 => Some(ContractError::CursorOutOfRange),
            227 => Some(ContractError::BatchTooLarge),
            228 => Some(ContractError::EmptyBatch),
            229 => Some(ContractError::UnsupportedDecimals),
            231 => Some(ContractError::UnauthorizedToken),
            232 => Some(ContractError::DuplicateIdempotencyKey),
            233 => Some(ContractError::InvariantViolation),
            234 => Some(ContractError::InvalidCurrency),
            300 => Some(ContractError::DuplicateAttestation),
            301 => Some(ContractError::AttestationNotFound),
            302 => Some(ContractError::AttestationAlreadyRevoked),
            303 => Some(ContractError::InvalidAttestationWeight),
            304 => Some(ContractError::AttestationWeightExceedsMax),
            400 => Some(ContractError::IdentityAlreadyRegistered),
            401 => Some(ContractError::BondContractAlreadyRegistered),
            402 => Some(ContractError::IdentityNotRegistered),
            403 => Some(ContractError::BondContractNotRegistered),
            404 => Some(ContractError::AlreadyDeactivated),
            405 => Some(ContractError::AlreadyActive),
            406 => Some(ContractError::InvalidContractAddress),
            407 => Some(ContractError::ContractCodeVerificationFailed),
            408 => Some(ContractError::UnsupportedInterface),
            500 => Some(ContractError::ExpiryInPast),
            501 => Some(ContractError::DelegationNotFound),
            502 => Some(ContractError::AlreadyRevoked),
            503 => Some(ContractError::DelegationExpiryTooLong),
            504 => Some(ContractError::UnknownScheme),
            505 => Some(ContractError::VerifierAlreadyRegistered),
            506 => Some(ContractError::VerifierNotRegistered),
            507 => Some(ContractError::VerificationFailed),
            508 => Some(ContractError::RevocationGraceExpired),
            509 => Some(ContractError::DelegationNotExpired),
            510 => Some(ContractError::PayloadTooOld),
            511 => Some(ContractError::DelegationInactive),
            512 => Some(ContractError::PromiseNotKept),
            600 => Some(ContractError::AmountMustBePositive),
            601 => Some(ContractError::ThresholdExceedsSigners),
            602 => Some(ContractError::InsufficientTreasuryBalance),
            603 => Some(ContractError::ProposalNotFound),
            604 => Some(ContractError::ProposalAlreadyExecuted),
            605 => Some(ContractError::InsufficientApprovals),
            606 => Some(ContractError::InvalidFlashLoanCallback),
            607 => Some(ContractError::FlashLoanRepaymentFailed),
            608 => Some(ContractError::ProposalExpired),
            609 => Some(ContractError::SlippageExceeded),
            610 => Some(ContractError::TreasuryBeneficiaryMismatch),
            700 => Some(ContractError::Overflow),
            701 => Some(ContractError::Underflow),
            702 => Some(ContractError::DivisionByZero),
            _ => None,
        }
    }
}

} // verus!

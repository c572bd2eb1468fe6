use credence_errors::{ContractError, ErrorCategory, ErrorExt, Role, VERSION};

/// Every error with its wire code, category, recoverability and description.
fn table() -> Vec<(ContractError, u32, ErrorCategory, bool, &'static str)> {
    vec![
        (ContractError::NotInitialized, 1, ErrorCategory::Initialization, true, "Contract has not been initialized"),
        (ContractError::AlreadyInitialized, 2, ErrorCategory::Initialization, true, "Contract has already been initialized"),
        (ContractError::NotAdmin, 100, ErrorCategory::Authorization, true, "Caller is not the admin"),
        (ContractError::NotBondOwner, 101, ErrorCategory::Authorization, true, "Caller is not the bond owner"),
        (ContractError::UnauthorizedAttester, 102, ErrorCategory::Authorization, true, "Caller is not an authorized attester"),
        (ContractError::NotOriginalAttester, 103, ErrorCategory::Authorization, true, "Only the original attester can revoke"),
        (ContractError::NotSigner, 104, ErrorCategory::Authorization, true, "Caller is not a registered multi-sig signer"),
        (ContractError::UnauthorizedDepositor, 105, ErrorCategory::Authorization, true, "Caller is neither admin nor an authorized depositor"),
        (ContractError::ContractPaused, 106, ErrorCategory::Authorization, true, "Contract is paused"),
        (ContractError::BorrowFrozen, 114, ErrorCategory::Authorization, true, "Borrows are frozen: new bond creation and top-ups are not allowed"),
        (ContractError::RoleNotHeldAtLedger, 116, ErrorCategory::Authorization, true, "Actor did not hold the required role at the specified ledger timestamp"),
        (ContractError::InvalidPauseAction, 107, ErrorCategory::Authorization, true, "Pause proposal action is invalid"),
        (ContractError::InsufficientSignatures, 108, ErrorCategory::Authorization, true, "Not enough approvals to execute proposal"),
        (ContractError::AdminSuspended, 113, ErrorCategory::Authorization, true, "Admin is currently suspended"),
        (ContractError::ZeroBytes32, 109, ErrorCategory::Authorization, true, "Input BytesN<32> argument is all-zero"),
        (ContractError::LeaseSignerMismatch, 119, ErrorCategory::Authorization, true, "Lease signer must match calling actor"),
        (ContractError::BondNotFound, 200, ErrorCategory::Bond, true, "No bond exists for the supplied identity"),
        (ContractError::BondNotActive, 201, ErrorCategory::Bond, true, "Bond is not in an active state"),
        (ContractError::InsufficientBalance, 202, ErrorCategory::Bond, true, "Insufficient balance for withdrawal"),
        (ContractError::SlashExceedsBond, 203, ErrorCategory::Bond, true, "Slash amount exceeds the bonded amount"),
        (ContractError::StorageCapReached, 224, ErrorCategory::Bond, false, "Storage cap for attestations or slash history reached"),
        (ContractError::LockupNotExpired, 204, ErrorCategory::Bond, true, "Lock-up period has not yet expired"),
        (ContractError::NotRollingBond, 205, ErrorCategory::Bond, true, "Bond is not configured as a rolling bond"),
        (ContractError::WithdrawalAlreadyRequested, 206, ErrorCategory::Bond, true, "A withdrawal has already been requested for this bond"),
        (ContractError::ReentrancyDetected, 207, ErrorCategory::Bond, false, "Reentrancy detected; call rejected"),
        (ContractError::SignatureExpired, 222, ErrorCategory::Bond, true, "Signature/operation deadline has passed"),
        (ContractError::InvalidNonce, 208, ErrorCategory::Bond, true, "Nonce is replayed or out of order"),
        (ContractError::NegativeStake, 209, ErrorCategory::Bond, true, "Attester stake cannot be negative"),
        (ContractError::EarlyExitConfigNotSet, 210, ErrorCategory::Bond, true, "Early-exit configuration has not been set for this bond"),
        (ContractError::InvalidPenaltyBps, 211, ErrorCategory::Bond, true, "Penalty bps must be in range 0-10000"),
        (ContractError::LeverageExceeded, 212, ErrorCategory::Bond, true, "Resulting leverage exceeds the configured maximum"),
        (ContractError::UnsupportedToken, 213, ErrorCategory::Bond, true, "Token transfer resulted in different amount than requested (fee-on-transfer tokens not supported)"),
        (ContractError::UnsupportedDecimals, 229, ErrorCategory::Bond, true, "Token decimals are outside the supported normalization range"),
        (ContractError::InvalidBondAmount, 214, ErrorCategory::Bond, true, "Bond amount must be strictly positive (> 0)"),
        (ContractError::AmountExplicitlyZero, 215, ErrorCategory::Bond, true, "Amount argument is explicitly set to zero, which is a bug (use Option to distinguish not-set from zero)"),
        (ContractError::InvalidBondDuration, 216, ErrorCategory::Bond, true, "Bond duration must be strictly positive (> 0)"),
        (ContractError::InvalidNoticePeriod, 217, ErrorCategory::Bond, true, "Rolling-bond notice_period_duration must be > 0 and <= duration"),
        (ContractError::BondAlreadyExists, 218, ErrorCategory::Bond, true, "Bond already exists for this identity"),
        (ContractError::UnauthorizedToken, 231, ErrorCategory::Bond, true, "Token address is not in the set of accepted tokens"),
        (ContractError::DuplicateIdempotencyKey, 232, ErrorCategory::Bond, true, "Idempotency key has already been used for this operation"),
        (ContractError::InvariantViolation, 233, ErrorCategory::Bond, false, "Bond storage drift detected; bonded/slashed or attestation counters inconsistent"),
        (ContractError::InvalidCurrency, 234, ErrorCategory::Bond, true, "Empty or whitespace-only currency symbol"),
        (ContractError::TreasuryNotConfigured, 223, ErrorCategory::Bond, true, "Slash treasury address has not been configured"),
        (ContractError::CursorOutOfRange, 226, ErrorCategory::Bond, true, "Pagination cursor is out of range (cursor >= registry_slots)"),
        (ContractError::BatchTooLarge, 227, ErrorCategory::Bond, true, "Batch input exceeds the maximum allowed size"),
        (ContractError::EmptyBatch, 228, ErrorCategory::Bond, true, "Batch input must contain at least one item"),
        (ContractError::DuplicateAttestation, 300, ErrorCategory::Attestation, true, "Attestation already exists from this attester"),
        (ContractError::AttestationNotFound, 301, ErrorCategory::Attestation, true, "No attestation found for the given key"),
        (ContractError::AttestationAlreadyRevoked, 302, ErrorCategory::Attestation, true, "Attestation has already been revoked"),
        (ContractError::InvalidAttestationWeight, 303, ErrorCategory::Attestation, true, "Attestation weight must be positive"),
        (ContractError::AttestationWeightExceedsMax, 304, ErrorCategory::Attestation, true, "Attestation weight exceeds the configured maximum"),
        (ContractError::IdentityAlreadyRegistered, 400, ErrorCategory::Registry, true, "Identity has already been registered in the registry"),
        (ContractError::BondContractAlreadyRegistered, 401, ErrorCategory::Registry, true, "Bond contract address has already been registered"),
        (ContractError::IdentityNotRegistered, 402, ErrorCategory::Registry, true, "Identity is not registered in the registry"),
        (ContractError::BondContractNotRegistered, 403, ErrorCategory::Registry, true, "Bond contract is not registered in the registry"),
        (ContractError::AlreadyDeactivated, 404, ErrorCategory::Registry, true, "Record is already in the deactivated state"),
        (ContractError::AlreadyActive, 405, ErrorCategory::Registry, true, "Record is already in the active state"),
        (ContractError::InvalidContractAddress, 406, ErrorCategory::Registry, true, "Provided contract address is not a deployed contract"),
        (ContractError::ContractCodeVerificationFailed, 407, ErrorCategory::Registry, true, "Contract code hash verification failed during trustless registration"),
        (ContractError::UnsupportedInterface, 408, ErrorCategory::Registry, true, "Bond contract does not support required interface"),
        (ContractError::ExpiryInPast, 500, ErrorCategory::Delegation, true, "Delegation expiry must be in the future"),
        (ContractError::DelegationNotFound, 501, ErrorCategory::Delegation, true, "No delegation found for the given key"),
        (ContractError::AlreadyRevoked, 502, ErrorCategory::Delegation, true, "Delegation has already been revoked"),
        (ContractError::DelegationExpiryTooLong, 503, ErrorCategory::Delegation, true, "Delegation expiry exceeds the maximum allowed lifetime"),
        (ContractError::DelegationInactive, 511, ErrorCategory::Delegation, true, "Delegation is not active (revoked or expired)"),
        (ContractError::UnknownScheme, 504, ErrorCategory::Delegation, false, "Unknown or unsupported signature scheme tag"),
        (ContractError::VerifierAlreadyRegistered, 505, ErrorCategory::Delegation, true, "Verifier already registered for the given scheme tag"),
        (ContractError::VerifierNotRegistered, 506, ErrorCategory::Delegation, true, "No verifier registered for the given scheme tag"),
        (ContractError::VerificationFailed, 507, ErrorCategory::Delegation, false, "Signature verification failed for the given scheme and payload"),
        (ContractError::RevocationGraceExpired, 508, ErrorCategory::Delegation, false, "Post-expiry revocation attempted outside the configured grace window"),
        (ContractError::DelegationNotExpired, 509, ErrorCategory::Delegation, true, "Cleanup attempted on a delegation that is not expired yet"),
        (ContractError::PayloadTooOld, 510, ErrorCategory::Delegation, true, "Signed payload ledger_number is older than MAX_PAYLOAD_AGE_LEDGERS ledgers"),
        (ContractError::PromiseNotKept, 512, ErrorCategory::Delegation, false, "Off-chain promise hash does not match on-chain execution"),
        (ContractError::DomainMismatch, 225, ErrorCategory::Bond, false, "Payload domain tag does not match expected"),
        (ContractError::OwnerMismatch, 219, ErrorCategory::Bond, false, "Payload owner does not match expected caller"),
        (ContractError::TargetMismatch, 220, ErrorCategory::Bond, false, "Payload target does not match expected action"),
        (ContractError::ContractIdMismatch, 221, ErrorCategory::Bond, false, "Payload contract_id does not match current contract"),
        (ContractError::NoPendingAdmin, 115, ErrorCategory::Authorization, true, "No pending admin transfer exists"),
        (ContractError::InvalidAdminAddress, 110, ErrorCategory::Authorization, true, "Proposed admin is the zero or identity address"),
        (ContractError::AdminUnchanged, 111, ErrorCategory::Authorization, true, "Proposed admin is the same as the current admin"),
        (ContractError::TimelockNotReady, 112, ErrorCategory::Authorization, true, "Timelock delay has not yet elapsed"),
        (ContractError::EmergencyDrainNotPermitted, 117, ErrorCategory::Authorization, true, "Emergency drain requires contract to be paused and timelock window to have elapsed"),
        (ContractError::TimestampInFuture, 118, ErrorCategory::Authorization, true, "Supplied timestamp or ledger number is ahead of the current ledger"),
        (ContractError::AmountMustBePositive, 600, ErrorCategory::Treasury, true, "Amount must be strictly positive"),
        (ContractError::ThresholdExceedsSigners, 601, ErrorCategory::Treasury, true, "Threshold cannot exceed the current signer count"),
        (ContractError::InsufficientTreasuryBalance, 602, ErrorCategory::Treasury, true, "Treasury balance is insufficient for withdrawal"),
        (ContractError::ProposalNotFound, 603, ErrorCategory::Treasury, true, "Withdrawal proposal not found"),
        (ContractError::ProposalAlreadyExecuted, 604, ErrorCategory::Treasury, true, "Withdrawal proposal has already been executed"),
        (ContractError::InsufficientApprovals, 605, ErrorCategory::Treasury, true, "Proposal does not have enough approvals to execute"),
        (ContractError::InvalidFlashLoanCallback, 606, ErrorCategory::Treasury, false, "Flashloan callback returned an invalid magic value"),
        (ContractError::FlashLoanRepaymentFailed, 607, ErrorCategory::Treasury, false, "Flashloan principal plus fee was not fully repaid"),
        (ContractError::ProposalExpired, 608, ErrorCategory::Treasury, true, "Withdrawal proposal has expired"),
        (ContractError::SlippageExceeded, 609, ErrorCategory::Treasury, true, "Settled withdrawal amount fell below the caller's minimum (slippage)"),
        (ContractError::TreasuryBeneficiaryMismatch, 610, ErrorCategory::Treasury, true, "Payment beneficiary does not match the expected treasury address"),
        (ContractError::Overflow, 700, ErrorCategory::Arithmetic, false, "Integer overflow in checked arithmetic"),
        (ContractError::Underflow, 701, ErrorCategory::Arithmetic, false, "Integer underflow in checked arithmetic"),
        (ContractError::DivisionByZero, 702, ErrorCategory::Arithmetic, false, "Division by a zero denominator"),
    ]
}

#[test]
fn test_every_variant_listed_once() {
    let t = table();
    assert_eq!(t.len(), 97);
    for i in 0..t.len() {
        for j in (i + 1)..t.len() {
            assert_ne!(t[i].0, t[j].0);
        }
    }
}

#[test]
fn test_codes() {
    for (e, code, _, _, _) in table() {
        assert_eq!(e.code(), code, "{:?}", e);
    }
}

#[test]
fn test_codes_unique() {
    let t = table();
    for i in 0..t.len() {
        for j in (i + 1)..t.len() {
            assert_ne!(t[i].0.code(), t[j].0.code());
        }
    }
}

#[test]
fn test_from_code_round_trip() {
    for (e, code, _, _, _) in table() {
        assert_eq!(ContractError::from_code(code), Some(e));
        assert_eq!(ContractError::from_code(e.code()), Some(e));
    }
}

#[test]
fn test_from_code_unknown() {
    for code in [0u32, 3, 99, 120, 299, 513, 611, 703, 800, u32::MAX] {
        assert_eq!(ContractError::from_code(code), None, "{}", code);
    }
}

#[test]
fn test_categories() {
    for (e, _, category, _, _) in table() {
        assert_eq!(e.category(), category, "{:?}", e);
    }
}

#[test]
fn test_descriptions() {
    for (e, _, _, _, description) in table() {
        assert_eq!(e.description(), description, "{:?}", e);
        assert!(!e.description().is_empty());
    }
}

#[test]
fn test_recoverability() {
    for (e, _, _, recoverable, _) in table() {
        assert_eq!(e.is_recoverable(), recoverable, "{:?}", e);
    }
}

#[test]
fn test_documented_recoverability_examples() {
    assert!(ContractError::AlreadyInitialized.is_recoverable());
    assert!(ContractError::LockupNotExpired.is_recoverable());
    assert!(ContractError::InsufficientSignatures.is_recoverable());
    for e in [
        ContractError::Overflow,
        ContractError::Underflow,
        ContractError::InvariantViolation,
        ContractError::ReentrancyDetected,
        ContractError::VerificationFailed,
        ContractError::DomainMismatch,
        ContractError::OwnerMismatch,
        ContractError::TargetMismatch,
        ContractError::ContractIdMismatch,
    ] {
        assert!(!e.is_recoverable(), "{:?}", e);
    }
}

#[test]
fn test_timestamp_delegation_and_idempotency_classification() {
    assert!(ContractError::TimestampInFuture.is_recoverable());
    assert!(ContractError::DelegationInactive.is_recoverable());
    assert!(ContractError::DuplicateIdempotencyKey.is_recoverable());
    assert_eq!(ContractError::DuplicateIdempotencyKey.category(), ErrorCategory::Bond);
}

fn block_of(code: u32) -> Option<ErrorCategory> {
    match code {
        1..=99 => Some(ErrorCategory::Initialization),
        100..=199 => Some(ErrorCategory::Authorization),
        200..=299 => Some(ErrorCategory::Bond),
        300..=399 => Some(ErrorCategory::Attestation),
        400..=499 => Some(ErrorCategory::Registry),
        500..=599 => Some(ErrorCategory::Delegation),
        600..=699 => Some(ErrorCategory::Treasury),
        700..=799 => Some(ErrorCategory::Arithmetic),
        _ => None,
    }
}

#[test]
fn test_code_blocks_name_categories() {
    for (e, _, _, _, _) in table() {
        assert_eq!(block_of(e.code()), Some(e.category()), "{:?}", e);
    }
    assert_eq!(ContractError::DomainMismatch.category(), ErrorCategory::Bond);
    assert_eq!(ContractError::OwnerMismatch.category(), ErrorCategory::Bond);
    assert_eq!(ContractError::TargetMismatch.category(), ErrorCategory::Bond);
    assert_eq!(ContractError::ContractIdMismatch.category(), ErrorCategory::Bond);
}

#[test]
fn test_descriptions_distinct_and_printable() {
    let t = table();
    for i in 0..t.len() {
        let d = t[i].0.description();
        assert!(!d.is_empty());
        assert!(d.chars().all(|c| (' '..='~').contains(&c)), "{:?}", t[i].0);
        for j in (i + 1)..t.len() {
            assert_ne!(d, t[j].0.description());
        }
    }
}

#[test]
fn test_recoverability_by_category() {
    for (e, _, _, _, _) in table() {
        match e.category() {
            ErrorCategory::Arithmetic => assert!(!e.is_recoverable()),
            ErrorCategory::Initialization
            | ErrorCategory::Authorization
            | ErrorCategory::Attestation
            | ErrorCategory::Registry => assert!(e.is_recoverable()),
            _ => {}
        }
    }
}

#[test]
fn test_role_and_version() {
    assert_ne!(Role::Admin, Role::User);
    let r = Role::Admin;
    let copy = r;
    assert_eq!(r, copy);
    assert_eq!(VERSION, "0.1.0");
}

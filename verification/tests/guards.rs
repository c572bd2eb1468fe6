use credence_errors::guards::{
    check_lease_signer, lease_signer_outcome, require_no_leading_zero_amount,
    require_non_zero_array, require_non_zero_bytes32, require_not_in_future,
    require_positive_amount, verify_no_future_ledger,
};
use credence_errors::ContractError;
use soroban_sdk::testutils::Ledger;
use soroban_sdk::{BytesN, Env};

#[test]
fn test_no_leading_zero_amount() {
    assert_eq!(require_no_leading_zero_amount(None), Ok(()));
    assert_eq!(
        require_no_leading_zero_amount(Some(0)),
        Err(ContractError::AmountExplicitlyZero)
    );
    assert_eq!(require_no_leading_zero_amount(Some(1)), Ok(()));
    assert_eq!(require_no_leading_zero_amount(Some(-7)), Ok(()));
}

#[test]
fn test_positive_amount() {
    assert_eq!(require_positive_amount(1), Ok(()));
    assert_eq!(require_positive_amount(i128::MAX), Ok(()));
    assert_eq!(require_positive_amount(0), Err(ContractError::AmountMustBePositive));
    assert_eq!(require_positive_amount(-1), Err(ContractError::AmountMustBePositive));
    assert_eq!(require_positive_amount(i128::MIN), Err(ContractError::AmountMustBePositive));
}

#[test]
fn test_not_in_future() {
    assert_eq!(require_not_in_future(10, 10), Ok(()));
    assert_eq!(require_not_in_future(9, 10), Ok(()));
    assert_eq!(require_not_in_future(11, 10), Err(ContractError::TimestampInFuture));
    assert_eq!(require_not_in_future(u64::MAX, 0), Err(ContractError::TimestampInFuture));
}

#[test]
fn test_verify_no_future_ledger() {
    let env = Env::default();
    env.ledger().set_timestamp(1_000);
    assert_eq!(verify_no_future_ledger(&env, 0), Ok(()));
    assert_eq!(verify_no_future_ledger(&env, 999), Ok(()));
    assert_eq!(verify_no_future_ledger(&env, 1_000), Ok(()));
    assert_eq!(verify_no_future_ledger(&env, 1_001), Err(ContractError::TimestampInFuture));
    env.ledger().set_timestamp(2_000);
    assert_eq!(verify_no_future_ledger(&env, 1_001), Ok(()));
}

#[test]
fn test_non_zero_array() {
    assert_eq!(require_non_zero_array(&[0u8; 32]), Err(ContractError::ZeroBytes32));
    let mut last = [0u8; 32];
    last[31] = 1;
    assert_eq!(require_non_zero_array(&last), Ok(()));
    let mut first = [0u8; 32];
    first[0] = 0xff;
    assert_eq!(require_non_zero_array(&first), Ok(()));
}

#[test]
fn test_non_zero_bytes32() {
    let env = Env::default();
    let zero = BytesN::from_array(&env, &[0u8; 32]);
    assert_eq!(require_non_zero_bytes32(&zero), Err(ContractError::ZeroBytes32));
    let mut raw = [0u8; 32];
    raw[17] = 3;
    let some = BytesN::from_array(&env, &raw);
    assert_eq!(require_non_zero_bytes32(&some), Ok(()));
}

#[test]
fn test_lease_signer_outcome() {
    assert_eq!(lease_signer_outcome(true), Ok(()));
    assert_eq!(lease_signer_outcome(false), Err(ContractError::LeaseSignerMismatch));
}

#[test]
fn test_check_lease_signer() {
    let env = Env::default();
    let a = <soroban_sdk::Address as soroban_sdk::testutils::Address>::generate(&env);
    let b = <soroban_sdk::Address as soroban_sdk::testutils::Address>::generate(&env);
    assert_eq!(check_lease_signer(&a, &a), Ok(()));
    assert_eq!(check_lease_signer(&a, &a.clone()), Ok(()));
    assert_eq!(check_lease_signer(&a, &b), Err(ContractError::LeaseSignerMismatch));
    assert_eq!(check_lease_signer(&b, &a), Err(ContractError::LeaseSignerMismatch));
}

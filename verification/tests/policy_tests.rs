use airdrop::errors::AirdropError;
use airdrop::policy::{check_distributor_exact, check_distributors, find_signer};
use airdrop::pubkey::Pubkey;

fn key(b: u8) -> Pubkey {
    Pubkey::new_from_array([b; 32])
}

#[test]
fn all_required_accepts_complete_signer_set() {
    let signers = vec![key(1), key(2)];
    let distributors = vec![key(1), key(2)];
    assert_eq!(check_distributors(&signers, &distributors), Ok(()));
}

#[test]
fn all_required_accepts_any_order() {
    let signers = vec![key(2), key(1)];
    let distributors = vec![key(1), key(2)];
    assert_eq!(check_distributors(&signers, &distributors), Ok(()));
}

#[test]
fn all_required_rejects_missing_distributor() {
    // Dropping either required signature flips the result.
    let distributors = vec![key(1), key(2)];
    assert_eq!(
        check_distributors(&vec![key(1), key(3)], &distributors),
        Err(AirdropError::DistributorMismatch)
    );
    assert_eq!(
        check_distributors(&vec![key(2), key(3)], &distributors),
        Err(AirdropError::DistributorMismatch)
    );
}

#[test]
fn all_required_tolerates_extra_signers() {
    let signers = vec![key(9), key(1), key(8), key(2)];
    let distributors = vec![key(1), key(2)];
    assert_eq!(check_distributors(&signers, &distributors), Ok(()));
}

#[test]
fn all_required_ignores_duplicate_signers() {
    let signers = vec![key(1), key(1), key(2)];
    let distributors = vec![key(1), key(2)];
    assert_eq!(check_distributors(&signers, &distributors), Ok(()));
}

#[test]
fn all_required_rejects_single_signer_for_two_distinct_distributors() {
    let signers = vec![key(1)];
    let distributors = vec![key(1), key(2)];
    assert_eq!(
        check_distributors(&signers, &distributors),
        Err(AirdropError::DistributorMismatch)
    );
}

#[test]
fn all_required_is_set_containment_under_duplicate_distributors() {
    // A repeated distributor entry asks for nothing beyond that identity's
    // signature: one signature from it satisfies the policy.
    let signers = vec![key(1)];
    let distributors = vec![key(1), key(1)];
    assert_eq!(check_distributors(&signers, &distributors), Ok(()));
}

#[test]
fn all_required_accepts_empty_distributor_set() {
    let signers = vec![key(1)];
    let distributors: Vec<Pubkey> = Vec::new();
    assert_eq!(check_distributors(&signers, &distributors), Ok(()));
}

#[test]
fn exact_match_accepts_present_distributor() {
    let signers = vec![key(3), key(1)];
    assert_eq!(check_distributor_exact(&signers, &key(1)), Ok(()));
}

#[test]
fn exact_match_rejects_absent_distributor() {
    let signers = vec![key(3), key(4)];
    assert_eq!(
        check_distributor_exact(&signers, &key(1)),
        Err(AirdropError::DistributorMismatch)
    );
}

#[test]
fn find_signer_compares_full_key_bytes() {
    let mut a = [1u8; 32];
    a[31] = 2;
    let signers = vec![Pubkey::new_from_array(a)];
    assert!(!find_signer(&signers, &key(1)));
    assert!(find_signer(&signers, &Pubkey::new_from_array(a)));
}

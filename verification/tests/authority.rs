use time_locked_escrow::authority::{derivation_verifies, derive_authority, verify_authority};

const PROGRAM: [u8; 32] = [7u8; 32];

#[test]
fn derivation_is_deterministic() {
    let first = derive_authority(42, &PROGRAM).unwrap();
    let second = derive_authority(42, &PROGRAM).unwrap();
    assert_eq!(first.0, second.0);
    assert_eq!(first.1, second.1);
}

#[test]
fn derivation_actually_transforms_its_inputs() {
    let (address, _bump) = derive_authority(42, &PROGRAM).unwrap();
    assert_ne!(address, PROGRAM);
    assert_ne!(address, [0u8; 32]);
}

#[test]
fn different_identities_get_different_authorities() {
    let (a, _) = derive_authority(1, &PROGRAM).unwrap();
    let (b, _) = derive_authority(2, &PROGRAM).unwrap();
    assert_ne!(a, b);
}

#[test]
fn a_derived_pair_verifies_offline() {
    let (address, bump) = derive_authority(42, &PROGRAM).unwrap();
    assert!(verify_authority(&address, bump, 42, &PROGRAM));
}

#[test]
fn derivation_and_verification_agree() {
    assert!(derivation_verifies(7, &PROGRAM));
    assert!(derivation_verifies(u64::MAX, &[0u8; 32]));
}

#[test]
fn a_tampered_address_fails_verification() {
    let (mut address, bump) = derive_authority(42, &PROGRAM).unwrap();
    address[0] = address[0].wrapping_add(1);
    assert!(!verify_authority(&address, bump, 42, &PROGRAM));
}

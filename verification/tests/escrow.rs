use time_locked_escrow::escrow::{close_escrow, initialize_escrow, withdraw, Escrow, EscrowError};

#[test]
fn initialize_builds_the_record() {
    let e = initialize_escrow(1, 500, 100, 1_000, 254).unwrap();
    assert_eq!(e.user, 1);
    assert_eq!(e.amount, 500);
    assert_eq!(e.unlock_time, 1_100);
    assert_eq!(e.bump, 254);
}

#[test]
fn initialize_rejects_zero_amount() {
    assert_eq!(initialize_escrow(1, 0, 100, 1_000, 254), Err(EscrowError::InvalidAmount));
}

#[test]
fn initialize_rejects_non_positive_duration() {
    assert_eq!(initialize_escrow(1, 500, 0, 1_000, 254), Err(EscrowError::InvalidDuration));
    assert_eq!(initialize_escrow(1, 500, -5, 1_000, 254), Err(EscrowError::InvalidDuration));
}

#[test]
fn initialize_rejects_overflowing_duration() {
    assert_eq!(
        initialize_escrow(1, 500, i64::MAX, 1, 254),
        Err(EscrowError::InvalidDuration)
    );
}

#[test]
fn initialize_accepts_duration_reaching_the_maximum_time() {
    let e = initialize_escrow(1, 500, i64::MAX - 1_000, 1_000, 254).unwrap();
    assert_eq!(e.unlock_time, i64::MAX);
}

#[test]
fn withdraw_fails_while_locked() {
    let mut e = initialize_escrow(1, 500, 100, 1_000, 254).unwrap();
    assert_eq!(withdraw(&mut e, 1_099), Err(EscrowError::StillLocked));
    assert_eq!(e.amount, 500);
}

#[test]
fn withdraw_succeeds_at_unlock_time_and_empties_the_record() {
    let mut e = initialize_escrow(1, 500, 100, 1_000, 254).unwrap();
    assert_eq!(withdraw(&mut e, 1_100), Ok(500));
    assert_eq!(e.amount, 0);
    assert_eq!(withdraw(&mut e, 1_100), Err(EscrowError::NoFundsToWithdraw));
}

#[test]
fn close_requires_the_time_to_have_passed() {
    let e = Escrow { user: 1, amount: 0, unlock_time: 1_100, bump: 254 };
    assert_eq!(close_escrow(&e, 1_099), Err(EscrowError::StillLocked));
    assert_eq!(close_escrow(&e, 1_100), Ok(()));
}

#[test]
fn close_requires_an_emptied_record() {
    let e = Escrow { user: 1, amount: 7, unlock_time: 1_100, bump: 254 };
    assert_eq!(close_escrow(&e, 1_200), Err(EscrowError::MustWithdrawFirst));
}

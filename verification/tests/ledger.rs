use time_locked_escrow::errors::ErrorKind;
use time_locked_escrow::ledger::Ledger;

const PROGRAM: [u8; 32] = [7u8; 32];

/// A ledger with one funded custody account and one position owned by 10,
/// delegated to 20, locked for 100 ticks from time 1_000.
fn ledger_with_position(transferable: bool) -> Ledger {
    let mut l = Ledger::new(PROGRAM);
    l.deposit(100, 1_000).unwrap();
    l.create_position(1, 10, 20, 100, transferable, 100, 1_000).unwrap();
    l
}

#[test]
fn create_captures_the_custody_balance() {
    let l = ledger_with_position(true);
    let p = l.get_position(1).unwrap();
    assert_eq!(p.identity, 1);
    assert_eq!(p.owner, 10);
    assert_eq!(p.delegation_target, 20);
    assert_eq!(p.custody_account, 100);
    assert_eq!(p.amount, 1_000);
    assert_eq!(p.start_time, 1_000);
    assert_eq!(p.lock_duration, 100);
    assert_eq!(p.unlock_time, 1_100);
    assert!(p.transferable);
    assert!(!p.for_sale);
    assert_eq!(p.listed_price, 0);
    assert_eq!(p.deactivated_at, None);
}

#[test]
fn create_rejects_a_taken_identity() {
    let mut l = ledger_with_position(true);
    assert_eq!(
        l.create_position(1, 11, 21, 100, true, 50, 1_000),
        Err(ErrorKind::StateConflict)
    );
}

#[test]
fn create_rejects_an_overflowing_unlock_time() {
    let mut l = Ledger::new(PROGRAM);
    l.deposit(100, 1_000).unwrap();
    assert_eq!(
        l.create_position(2, 10, 20, 100, true, 100, u64::MAX - 50),
        Err(ErrorKind::InvalidInput)
    );
}

#[test]
fn create_rejects_an_empty_custody_account() {
    let mut l = Ledger::new(PROGRAM);
    assert_eq!(
        l.create_position(2, 10, 20, 100, true, 100, 1_000),
        Err(ErrorKind::InvalidInput)
    );
}

#[test]
fn create_accepts_a_zero_lock_duration() {
    let mut l = Ledger::new(PROGRAM);
    l.deposit(100, 1_000).unwrap();
    l.create_position(2, 10, 20, 100, true, 0, 1_000).unwrap();
    assert_eq!(l.withdraw(2, 10, 1_000), Ok(1_000));
}

#[test]
fn operations_on_a_missing_identity_report_record_not_found() {
    let mut l = Ledger::new(PROGRAM);
    assert_eq!(l.list_for_sale(9, 10, 5), Err(ErrorKind::RecordNotFound));
    assert_eq!(l.cancel_sale(9, 10), Err(ErrorKind::RecordNotFound));
    assert_eq!(l.buy_position(9, 30, 10), Err(ErrorKind::RecordNotFound));
    assert_eq!(l.deactivate(9, 10, 1_000), Err(ErrorKind::RecordNotFound));
    assert_eq!(l.withdraw(9, 10, 1_000), Err(ErrorKind::RecordNotFound));
}

#[test]
fn owner_gated_operations_refuse_any_other_caller() {
    let mut l = ledger_with_position(true);
    assert_eq!(l.list_for_sale(1, 11, 5), Err(ErrorKind::Unauthorized));
    assert_eq!(l.cancel_sale(1, 11), Err(ErrorKind::Unauthorized));
    assert_eq!(l.deactivate(1, 11, 2_000), Err(ErrorKind::Unauthorized));
    assert_eq!(l.withdraw(1, 11, 2_000), Err(ErrorKind::Unauthorized));
    let p = l.get_position(1).unwrap();
    assert_eq!(p.owner, 10);
    assert!(!p.for_sale);
    assert_eq!(p.deactivated_at, None);
}

#[test]
fn listing_sets_the_offer_and_relisting_overwrites_the_price() {
    let mut l = ledger_with_position(true);
    assert_eq!(l.list_for_sale(1, 10, 250), Ok(()));
    let p = l.get_position(1).unwrap();
    assert!(p.for_sale);
    assert_eq!(p.listed_price, 250);
    assert_eq!(l.list_for_sale(1, 10, 300), Ok(()));
    assert_eq!(l.get_position(1).unwrap().listed_price, 300);
}

#[test]
fn listing_rejects_a_zero_price() {
    let mut l = ledger_with_position(true);
    assert_eq!(l.list_for_sale(1, 10, 0), Err(ErrorKind::InvalidInput));
}

#[test]
fn listing_refuses_a_non_transferable_record() {
    let mut l = ledger_with_position(false);
    assert_eq!(l.list_for_sale(1, 10, 250), Err(ErrorKind::StateConflict));
}

#[test]
fn cancelling_clears_the_offer_and_is_idempotent() {
    let mut l = ledger_with_position(true);
    l.list_for_sale(1, 10, 250).unwrap();
    assert_eq!(l.cancel_sale(1, 10), Ok(()));
    let p = l.get_position(1).unwrap();
    assert!(!p.for_sale);
    assert_eq!(p.listed_price, 0);
    assert_eq!(l.cancel_sale(1, 10), Ok(()));
}

#[test]
fn buying_an_unlisted_record_is_refused() {
    let mut l = ledger_with_position(true);
    l.deposit(30, 500).unwrap();
    assert_eq!(l.buy_position(1, 30, 10), Err(ErrorKind::StateConflict));
}

#[test]
fn buying_with_a_stale_seller_is_refused() {
    let mut l = ledger_with_position(true);
    l.list_for_sale(1, 10, 250).unwrap();
    l.deposit(30, 500).unwrap();
    assert_eq!(l.buy_position(1, 30, 11), Err(ErrorKind::Unauthorized));
}

#[test]
fn buying_with_short_funds_is_refused() {
    let mut l = ledger_with_position(true);
    l.list_for_sale(1, 10, 250).unwrap();
    l.deposit(30, 249).unwrap();
    assert_eq!(l.buy_position(1, 30, 10), Err(ErrorKind::ExternalFailure));
}

#[test]
fn buying_that_would_overflow_the_seller_is_refused() {
    let mut l = ledger_with_position(true);
    l.list_for_sale(1, 10, 250).unwrap();
    l.deposit(30, 250).unwrap();
    l.deposit(10, u64::MAX - 100).unwrap();
    assert_eq!(l.buy_position(1, 30, 10), Err(ErrorKind::ArithmeticOverflow));
}

#[test]
fn scenario_listing_then_purchase_moves_value_and_ownership() {
    let mut l = ledger_with_position(true);
    assert_eq!(l.list_for_sale(1, 10, 1_000), Ok(()));
    l.deposit(30, 1_000).unwrap();
    let seller_before = l.balance_of(10);
    assert_eq!(l.buy_position(1, 30, 10), Ok(()));
    assert_eq!(l.balance_of(30), 0);
    assert_eq!(l.balance_of(10), seller_before + 1_000);
    let p = l.get_position(1).unwrap();
    assert_eq!(p.owner, 30);
    assert!(!p.for_sale);
    assert_eq!(p.listed_price, 0);
    assert_eq!(p.unlock_time, 1_100);
    assert_eq!(p.custody_account, 100);
}

#[test]
fn a_sale_does_not_disturb_lock_or_deactivation() {
    let mut l = ledger_with_position(true);
    l.deactivate(1, 10, 1_050).unwrap();
    l.list_for_sale(1, 10, 250).unwrap();
    l.deposit(30, 250).unwrap();
    l.buy_position(1, 30, 10).unwrap();
    let p = l.get_position(1).unwrap();
    assert_eq!(p.deactivated_at, Some(1_050));
    assert_eq!(p.unlock_time, 1_100);
}

#[test]
fn deactivating_twice_is_refused() {
    let mut l = ledger_with_position(true);
    assert_eq!(l.deactivate(1, 10, 1_050), Ok(()));
    assert_eq!(l.get_position(1).unwrap().deactivated_at, Some(1_050));
    assert_eq!(l.deactivate(1, 10, 1_060), Err(ErrorKind::StateConflict));
    assert_eq!(l.get_position(1).unwrap().deactivated_at, Some(1_050));
}

#[test]
fn scenario_early_withdrawal_needs_a_deactivation() {
    let mut l = ledger_with_position(true);
    assert_eq!(l.withdraw(1, 10, 1_050), Err(ErrorKind::StateConflict));
    assert_eq!(l.deactivate(1, 10, 1_050), Ok(()));
    assert_eq!(l.get_position(1).unwrap().deactivated_at, Some(1_050));
    assert_eq!(l.withdraw(1, 10, 1_051), Ok(1_000));
    assert!(l.get_position(1).is_none());
    assert_eq!(l.balance_of(10), 1_000);
    assert_eq!(l.balance_of(100), 0);
}

#[test]
fn withdrawal_at_maturity_needs_no_deactivation() {
    let mut l = ledger_with_position(true);
    assert_eq!(l.withdraw(1, 10, 1_099), Err(ErrorKind::StateConflict));
    assert_eq!(l.withdraw(1, 10, 1_100), Ok(1_000));
    assert_eq!(l.balance_of(10), 1_000);
}

#[test]
fn withdrawal_is_terminal_and_the_identity_can_start_afresh() {
    let mut l = ledger_with_position(true);
    l.withdraw(1, 10, 1_100).unwrap();
    assert_eq!(l.withdraw(1, 10, 1_200), Err(ErrorKind::RecordNotFound));
    assert_eq!(l.list_for_sale(1, 10, 5), Err(ErrorKind::RecordNotFound));
    l.deposit(100, 400).unwrap();
    l.create_position(1, 11, 21, 100, false, 10, 2_000).unwrap();
    let p = l.get_position(1).unwrap();
    assert_eq!(p.owner, 11);
    assert_eq!(p.amount, 400);
    assert_eq!(p.deactivated_at, None);
}

#[test]
fn withdrawal_that_would_overflow_the_owner_is_refused() {
    let mut l = ledger_with_position(true);
    l.deposit(10, u64::MAX - 100).unwrap();
    assert_eq!(l.withdraw(1, 10, 1_100), Err(ErrorKind::ArithmeticOverflow));
    assert!(l.get_position(1).is_some());
    assert_eq!(l.balance_of(100), 1_000);
}

#[test]
fn deposits_accumulate_and_refuse_overflow() {
    let mut l = Ledger::new(PROGRAM);
    assert_eq!(l.deposit(5, u64::MAX), Ok(()));
    assert_eq!(l.deposit(5, 1), Err(ErrorKind::ArithmeticOverflow));
    assert_eq!(l.balance_of(5), u64::MAX);
}

#[test]
fn transfers_are_exact_and_all_or_nothing() {
    let mut l = Ledger::new(PROGRAM);
    l.deposit(5, 300).unwrap();
    assert_eq!(l.transfer(5, 6, 400), Err(ErrorKind::ExternalFailure));
    assert_eq!(l.balance_of(5), 300);
    assert_eq!(l.transfer(5, 6, 300), Ok(()));
    assert_eq!(l.balance_of(5), 0);
    assert_eq!(l.balance_of(6), 300);
    assert_eq!(l.transfer(6, 6, 300), Ok(()));
    assert_eq!(l.balance_of(6), 300);
}

//! The plain time-locked escrow: a single user locks an amount until an
//! unlock time, withdraws it once the time has passed, and closes the
//! emptied record. This is the marketplace-free subset of the position
//! lifecycle, kept with its own record and error names.

use vstd::prelude::*;

verus! {

/// One escrow record: who locked the value, how much, until when, and the
/// salt proving the escrow's derived authority address.
#[derive(Clone, Copy, Debug, PartialEq, Eq, Structural)]
pub struct Escrow {
    pub user: u64,
    pub amount: u64,
    pub unlock_time: i64,
    pub bump: u8,
}

/// Why an escrow operation was refused.
#[derive(Clone, Copy, Debug, PartialEq, Eq, Structural)]
pub enum EscrowError {
    /// The amount to lock must be greater than zero.
    InvalidAmount,
    /// The lock duration must be greater than zero and must not overflow
    /// the time representation when added to the current time.
    InvalidDuration,
    /// The unlock time has not passed yet.
    StillLocked,
    /// No funds are available to withdraw.
    NoFundsToWithdraw,
    /// The record still holds funds and cannot be closed.
    MustWithdrawFirst,
}

/// What `initialize_escrow` returns for every input.
pub open spec fn initialize_outcome(
    user: u64,
    amount: u64,
    lock_duration_seconds: i64,
    now: i64,
    bump: u8,
) -> Result<Escrow, EscrowError> {
    if amount == 0 {
        Err(EscrowError::InvalidAmount)
    } else if lock_duration_seconds <= 0 {
        Err(EscrowError::InvalidDuration)
    } else if now + lock_duration_seconds > i64::MAX {
        Err(EscrowError::InvalidDuration)
    } else {
        Ok(Escrow { user, amount, unlock_time: (now + lock_duration_seconds) as i64, bump })
    }
}

/// What `withdraw` returns and leaves behind for every input.
pub open spec fn withdraw_outcome(e: Escrow, now: i64) -> (Result<u64, EscrowError>, Escrow) {
    if now < e.unlock_time {
        (Err(EscrowError::StillLocked), e)
    } else if e.amount == 0 {
        (Err(EscrowError::NoFundsToWithdraw), e)
    } else {
        (Ok(e.amount), Escrow { amount: 0, ..e })
    }
}

/// What `close_escrow` returns for every input.
pub open spec fn close_outcome(e: Escrow, now: i64) -> Result<(), EscrowError> {
    if now < e.unlock_time {
        Err(EscrowError::StillLocked)
    } else if e.amount != 0 {
        Err(EscrowError::MustWithdrawFirst)
    } else {
        Ok(())
    }
}

/// Validates the lock terms and builds the escrow record. The unlock time
/// is `now + lock_duration_seconds`, computed with an explicit overflow
/// check; a duration that would overflow is rejected as invalid input,
/// never silently wrapped. The transfer of the locked value into the
/// escrow's account is the caller's side of the operation.
pub fn initialize_escrow(
    user: u64,
    amount: u64,
    lock_duration_seconds: i64,
    now: i64,
    bump: u8,
) -> (r: Result<Escrow, EscrowError>)
    ensures
        r == initialize_outcome(user, amount, lock_duration_seconds, now, bump),
{
    if amount == 0 {
        return Err(EscrowError::InvalidAmount);
    }
    if lock_duration_seconds <= 0 {
        return Err(EscrowError::InvalidDuration);
    }
    match now.checked_add(lock_duration_seconds) {
        None => Err(EscrowError::InvalidDuration),
        Some(unlock_time) => Ok(Escrow { user, amount, unlock_time, bump }),
    }
}

/// Decides a withdrawal at time `now` and empties the record on success,
/// returning the amount owed back to the user. Refused while the unlock
/// time has not passed, and once the record holds nothing.
pub fn withdraw(escrow: &mut Escrow, now: i64) -> (r: Result<u64, EscrowError>)
    ensures
        ({
            let (r2, e2) = withdraw_outcome(*old(escrow), now);
            r == r2 && *final(escrow) == e2
        }),
{
    if now < escrow.unlock_time {
        return Err(EscrowError::StillLocked);
    }
    if escrow.amount == 0 {
        return Err(EscrowError::NoFundsToWithdraw);
    }
    let amount = escrow.amount;
    escrow.amount = 0;
    Ok(amount)
}

/// Decides whether the record may be destroyed: only after the unlock time
/// has passed and every locked unit has been withdrawn.
pub fn close_escrow(escrow: &Escrow, now: i64) -> (r: Result<(), EscrowError>)
    ensures
        r == close_outcome(*escrow, now),
{
    if now < escrow.unlock_time {
        return Err(EscrowError::StillLocked);
    }
    if escrow.amount != 0 {
        return Err(EscrowError::MustWithdrawFirst);
    }
    Ok(())
}

} // verus!

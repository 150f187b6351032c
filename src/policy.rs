use vstd::prelude::*;
use crate::accounting::{spec_withdrawable, withdrawable};
use crate::error::TimeLockError;
use crate::key::Key;
use crate::state::TimeLockDeposit;

verus! {

/// Smallest principal a deposit may carry, whatever the reserve.
pub const MIN_USER_DEPOSIT_LAMPORTS: u64 = 1_000_000;

/// Shortest allowed span between creation and unlock, in seconds.
pub const MIN_LOCK_DURATION: i64 = 60;

/// Longest allowed span between creation and unlock: one hundred years of 365 days.
pub const MAX_LOCK_DURATION: i64 = 3_153_600_000;

/// Wait after the unlock time before a withdrawn deposit may be closed: one year.
pub const CLOSE_GRACE_PERIOD: i64 = 31_536_000;

/// The principal covers both the fixed floor and the account's own reserve.
pub open spec fn spec_amount_floor(amount: u64, min_reserve: u64) -> bool {
    amount >= MIN_USER_DEPOSIT_LAMPORTS && amount >= min_reserve
}

pub fn amount_floor(amount: u64, min_reserve: u64) -> (r: bool)
    ensures
        r == spec_amount_floor(amount, min_reserve),
{
    let floor = if min_reserve > MIN_USER_DEPOSIT_LAMPORTS {
        min_reserve
    } else {
        MIN_USER_DEPOSIT_LAMPORTS
    };
    amount >= floor
}

pub open spec fn spec_unlock_in_future(unlock_time: i64, now: i64) -> bool {
    unlock_time > now
}

pub fn unlock_in_future(unlock_time: i64, now: i64) -> (r: bool)
    ensures
        r == spec_unlock_in_future(unlock_time, now),
{
    unlock_time > now
}

pub open spec fn spec_duration_floor(unlock_time: i64, now: i64, min_duration: i64) -> bool {
    unlock_time - now >= min_duration
}

pub fn duration_floor(unlock_time: i64, now: i64, min_duration: i64) -> (r: bool)
    ensures
        r == spec_duration_floor(unlock_time, now, min_duration),
{
    (unlock_time as i128) - (now as i128) >= min_duration as i128
}

/// The unlock time lies no further than `max_duration` after `now`, where a
/// ceiling `now + max_duration` that does not fit in an `i64` fails the check.
pub open spec fn spec_duration_ceiling(unlock_time: i64, now: i64, max_duration: i64) -> bool {
    now + max_duration <= i64::MAX && now + max_duration >= i64::MIN && unlock_time <= now
        + max_duration
}

pub fn duration_ceiling(unlock_time: i64, now: i64, max_duration: i64) -> (r: bool)
    ensures
        r == spec_duration_ceiling(unlock_time, now, max_duration),
{
    match now.checked_add(max_duration) {
        Some(max_unlock) => unlock_time <= max_unlock,
        None => false,
    }
}

/// The sender can pay both the principal and the new account's reserve.
pub open spec fn spec_funded_for_creation(sender_balance: u64, amount: u64, reserve: u64) -> bool {
    sender_balance >= amount + reserve
}

pub fn funded_for_creation(sender_balance: u64, amount: u64, reserve: u64) -> (r: bool)
    ensures
        r == spec_funded_for_creation(sender_balance, amount, reserve),
{
    match amount.checked_add(reserve) {
        Some(needed) => sender_balance >= needed,
        None => false,
    }
}

/// The unlock instant itself already counts as unlocked.
pub open spec fn spec_unlocked(now: i64, unlock_time: i64) -> bool {
    now >= unlock_time
}

pub fn unlocked(now: i64, unlock_time: i64) -> (r: bool)
    ensures
        r == spec_unlocked(now, unlock_time),
{
    now >= unlock_time
}

/// A withdrawn deposit may be closed once the grace period after its unlock
/// time has passed.
pub open spec fn spec_closable(is_withdrawn: bool, unlock_time: i64, now: i64, grace_period: i64) -> bool {
    is_withdrawn && now >= unlock_time + grace_period
}

pub fn closable(is_withdrawn: bool, unlock_time: i64, now: i64, grace_period: i64) -> (r: bool)
    ensures
        r == spec_closable(is_withdrawn, unlock_time, now, grace_period),
{
    is_withdrawn && (now as i128) >= (unlock_time as i128) + (grace_period as i128)
}

/// Only the two parties named in the record may withdraw.
pub open spec fn spec_authorized_withdrawer(actor: Key, d: TimeLockDeposit) -> bool {
    actor@ == d.sender@ || actor@ == d.recipient@
}

pub fn authorized_withdrawer(actor: &Key, d: &TimeLockDeposit) -> (r: bool)
    ensures
        r == spec_authorized_withdrawer(*actor, *d),
{
    actor.same_as(&d.sender) || actor.same_as(&d.recipient)
}

/// The checks on a new deposit, in order; the first that fails names the error.
pub open spec fn spec_create_verdict(
    amount: u64,
    unlock_time: i64,
    now: i64,
    reserve: u64,
    sender_balance: u64,
) -> Result<(), TimeLockError> {
    if !spec_amount_floor(amount, reserve) {
        Err(TimeLockError::InsufficientAmount)
    } else if !spec_unlock_in_future(unlock_time, now) {
        Err(TimeLockError::InvalidUnlockTime)
    } else if !spec_duration_floor(unlock_time, now, MIN_LOCK_DURATION) {
        Err(TimeLockError::LockDurationTooShort)
    } else if !spec_duration_ceiling(unlock_time, now, MAX_LOCK_DURATION) {
        Err(TimeLockError::ExcessiveUnlockTime)
    } else if !spec_funded_for_creation(sender_balance, amount, reserve) {
        Err(TimeLockError::InsufficientBalance)
    } else {
        Ok(())
    }
}

pub fn check_create(amount: u64, unlock_time: i64, now: i64, reserve: u64, sender_balance: u64) -> (r:
    Result<(), TimeLockError>)
    ensures
        r == spec_create_verdict(amount, unlock_time, now, reserve, sender_balance),
{
    if !amount_floor(amount, reserve) {
        Err(TimeLockError::InsufficientAmount)
    } else if !unlock_in_future(unlock_time, now) {
        Err(TimeLockError::InvalidUnlockTime)
    } else if !duration_floor(unlock_time, now, MIN_LOCK_DURATION) {
        Err(TimeLockError::LockDurationTooShort)
    } else if !duration_ceiling(unlock_time, now, MAX_LOCK_DURATION) {
        Err(TimeLockError::ExcessiveUnlockTime)
    } else if !funded_for_creation(sender_balance, amount, reserve) {
        Err(TimeLockError::InsufficientBalance)
    } else {
        Ok(())
    }
}

/// The checks on a withdrawal, in order, and the amount it releases when all pass.
pub open spec fn spec_withdraw_verdict(
    d: TimeLockDeposit,
    actor: Key,
    now: i64,
    balance: u64,
    reserve: u64,
) -> Result<u64, TimeLockError> {
    if !spec_unlocked(now, d.unlock_time) {
        Err(TimeLockError::StillLocked)
    } else if d.is_withdrawn {
        Err(TimeLockError::AlreadyWithdrawn)
    } else if !spec_authorized_withdrawer(actor, d) {
        Err(TimeLockError::UnauthorizedWithdrawal)
    } else if spec_withdrawable(balance, reserve, d.amount) == 0 {
        Err(TimeLockError::InsufficientFunds)
    } else {
        Ok(spec_withdrawable(balance, reserve, d.amount))
    }
}

pub fn check_withdraw(d: &TimeLockDeposit, actor: &Key, now: i64, balance: u64, reserve: u64) -> (r:
    Result<u64, TimeLockError>)
    ensures
        r == spec_withdraw_verdict(*d, *actor, now, balance, reserve),
{
    if !unlocked(now, d.unlock_time) {
        return Err(TimeLockError::StillLocked);
    }
    if d.is_withdrawn {
        return Err(TimeLockError::AlreadyWithdrawn);
    }
    if !authorized_withdrawer(actor, d) {
        return Err(TimeLockError::UnauthorizedWithdrawal);
    }
    let amount = withdrawable(balance, reserve, d.amount);
    if amount == 0 {
        return Err(TimeLockError::InsufficientFunds);
    }
    Ok(amount)
}

/// The checks on closing a deposit, in order.
pub open spec fn spec_close_verdict(d: TimeLockDeposit, now: i64) -> Result<(), TimeLockError> {
    if !d.is_withdrawn {
        Err(TimeLockError::CannotCloseActiveDeposit)
    } else if !spec_closable(d.is_withdrawn, d.unlock_time, now, CLOSE_GRACE_PERIOD) {
        Err(TimeLockError::TooEarlyToClose)
    } else {
        Ok(())
    }
}

pub fn check_close(d: &TimeLockDeposit, now: i64) -> (r: Result<(), TimeLockError>)
    ensures
        r == spec_close_verdict(*d, now),
{
    if !d.is_withdrawn {
        Err(TimeLockError::CannotCloseActiveDeposit)
    } else if !closable(d.is_withdrawn, d.unlock_time, now, CLOSE_GRACE_PERIOD) {
        Err(TimeLockError::TooEarlyToClose)
    } else {
        Ok(())
    }
}

} // verus!

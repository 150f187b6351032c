//! How much value an escrow releases, and moving value between balances.
use vstd::prelude::*;

verus! {

/// What a withdrawal may release: the balance above the reserve, never more
/// than the recorded principal, and nothing when the balance is below the
/// reserve.
pub open spec fn spec_withdrawable(balance: u64, reserve: u64, principal: u64) -> u64 {
    if balance < reserve {
        0
    } else if balance - reserve < principal {
        (balance - reserve) as u64
    } else {
        principal
    }
}

pub fn withdrawable(balance: u64, reserve: u64, principal: u64) -> (r: u64)
    ensures
        r == spec_withdrawable(balance, reserve, principal),
        r <= principal,
        r as int <= balance as int - reserve as int || r == 0,
{
    match balance.checked_sub(reserve) {
        Some(above) => if above < principal {
            above
        } else {
            principal
        },
        None => 0,
    }
}

/// Moves `amount` from one balance to the other, all or nothing: it fails,
/// changing neither, when the source holds less than `amount` or the
/// destination would pass `u64::MAX`. The sum of the two is kept.
pub fn transfer(from: &mut u64, to: &mut u64, amount: u64) -> (r: bool)
    ensures
        r == (amount <= *old(from) && *old(to) + amount <= u64::MAX),
        r ==> *final(from) == *old(from) - amount && *final(to) == *old(to) + amount,
        !r ==> *final(from) == *old(from) && *final(to) == *old(to),
        *final(from) + *final(to) == *old(from) + *old(to),
{
    if amount > *from {
        return false;
    }
    match to.checked_add(amount) {
        Some(t) => {
            *from = *from - amount;
            *to = t;
            true
        },
        None => false,
    }
}

} // verus!

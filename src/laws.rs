//! What holds of every run of the escrow's operations.
use vstd::prelude::*;
use crate::address::spec_escrow_seeds;
use crate::error::{ProcessError, TimeLockError};
use crate::key::Key;
use crate::policy::{
    spec_create_verdict, CLOSE_GRACE_PERIOD, MAX_LOCK_DURATION, MIN_LOCK_DURATION,
    MIN_USER_DEPOSIT_LAMPORTS,
};
use crate::processor::{
    spec_address_matches, spec_close_outcome, spec_create_outcome, spec_process_outcome,
    spec_withdraw_outcome, total_lamports, AccountState,
};
use crate::instruction::{stored_instruction, FuturityInstruction};
use crate::state::{lemma_stored_record_of_pack, stored_record, TimeLockDeposit};

verus! {

/// Replacing one account changes the total by the difference of the two balances.
pub proof fn lemma_total_update(s: Seq<AccountState>, i: int, a: AccountState)
    requires
        0 <= i < s.len(),
    ensures
        total_lamports(s.update(i, a)) == total_lamports(s) - s[i].lamports + a.lamports,
    decreases s.len(),
{
    let t = s.update(i, a);
    if i == s.len() - 1 {
        assert(t.drop_last() =~= s.drop_last());
    } else {
        lemma_total_update(s.drop_last(), i, a);
        assert(t.drop_last() =~= s.drop_last().update(i, a));
    }
}

/// A principal below the fixed floor or below the reserve is refused with
/// `InsufficientAmount`, whatever the times and balances, once the sender has
/// signed for an empty deposit account.
pub proof fn lemma_amount_floor(
    program_id: Key,
    s: Seq<AccountState>,
    amount: u64,
    unlock_time: i64,
    now: i64,
    reserve: u64,
)
    requires
        s.len() >= 4,
        s[0].is_signer,
        s[2].lamports == 0,
        s[2].data.len() == 0,
        amount < MIN_USER_DEPOSIT_LAMPORTS || amount < reserve,
    ensures
        spec_create_outcome(program_id, s, amount, unlock_time, now, reserve) == Err::<
            Seq<AccountState>,
            ProcessError,
        >(ProcessError::Custom(TimeLockError::InsufficientAmount)),
{
}

/// With a large enough principal and a funded sender, the creation checks pass
/// exactly when the unlock time lies in the future, at least the shortest
/// duration and at most the longest duration away.
pub proof fn lemma_time_window(
    amount: u64,
    unlock_time: i64,
    now: i64,
    reserve: u64,
    sender_balance: u64,
)
    requires
        amount >= MIN_USER_DEPOSIT_LAMPORTS,
        amount >= reserve,
        sender_balance >= amount + reserve,
        now + MAX_LOCK_DURATION <= i64::MAX,
    ensures
        spec_create_verdict(amount, unlock_time, now, reserve, sender_balance) is Ok <==> (now
            < unlock_time <= now + MAX_LOCK_DURATION && unlock_time - now >= MIN_LOCK_DURATION),
{
}

/// A withdrawal never releases more than the principal; when the balance
/// exceeds reserve and principal it releases exactly the principal, and the
/// surplus stays in the deposit.
pub proof fn lemma_withdrawal_cap(
    program_id: Key,
    s: Seq<AccountState>,
    now: i64,
    reserve: u64,
    d: TimeLockDeposit,
)
    requires
        s.len() >= 2,
        stored_record(s[1].data) == Some(d),
        spec_withdraw_outcome(program_id, s, now, reserve) is Ok,
    ensures
        ({
            let t = spec_withdraw_outcome(program_id, s, now, reserve)->Ok_0;
            &&& t[0].lamports - s[0].lamports <= d.amount
            &&& s[1].lamports - t[1].lamports == t[0].lamports - s[0].lamports
            &&& s[1].lamports > reserve + d.amount ==> t[0].lamports == s[0].lamports + d.amount
                && t[1].lamports == s[1].lamports - d.amount
        }),
{
}

/// An authorized withdrawal from a deposit whose balance exceeds reserve and
/// principal, at or after unlock, releases exactly the principal to the
/// withdrawer and leaves the surplus in the deposit.
pub proof fn lemma_surplus_stays(
    program_id: Key,
    s: Seq<AccountState>,
    now: i64,
    reserve: u64,
    d: TimeLockDeposit,
)
    requires
        s.len() >= 2,
        s[0].is_signer,
        s[0].key@ != s[1].key@,
        s[0].key@ == d.sender@ || s[0].key@ == d.recipient@,
        stored_record(s[1].data) == Some(d),
        spec_address_matches(program_id, s[1].key, d),
        !d.is_withdrawn,
        now >= d.unlock_time,
        d.amount > 0,
        s[1].lamports > reserve + d.amount,
        s[0].lamports + d.amount <= u64::MAX,
    ensures
        ({
            let r = spec_withdraw_outcome(program_id, s, now, reserve);
            &&& r is Ok
            &&& r->Ok_0[0].lamports == s[0].lamports + d.amount
            &&& r->Ok_0[1].lamports == s[1].lamports - d.amount
            &&& r->Ok_0[1].lamports > reserve
        }),
{
}

/// Once a withdrawal has succeeded, any later withdrawal from the same deposit
/// account, by any signer, fails with `AlreadyWithdrawn`.
pub proof fn lemma_single_withdrawal(
    program_id: Key,
    s: Seq<AccountState>,
    now: i64,
    reserve: u64,
    t: Seq<AccountState>,
    later: i64,
    later_reserve: u64,
)
    requires
        spec_withdraw_outcome(program_id, s, now, reserve) is Ok,
        t.len() >= 2,
        t[0].is_signer,
        t[1] == spec_withdraw_outcome(program_id, s, now, reserve)->Ok_0[1],
        later >= now,
    ensures
        spec_withdraw_outcome(program_id, t, later, later_reserve) == Err::<
            Seq<AccountState>,
            ProcessError,
        >(ProcessError::Custom(TimeLockError::AlreadyWithdrawn)),
{
    let d = stored_record(s[1].data).unwrap();
    let w = d.spec_withdrawn(now, s[0].key);
    lemma_stored_record_of_pack(w);
    assert(spec_escrow_seeds(w.sender@, w.recipient@, w.amount, w.unlock_time) == spec_escrow_seeds(
        d.sender@,
        d.recipient@,
        d.amount,
        d.unlock_time,
    ));
    assert(spec_address_matches(program_id, t[1].key, w));
}

/// On a deposit not yet withdrawn, a signer who is neither sender nor recipient
/// is refused with `UnauthorizedWithdrawal`, even after the unlock time.
pub proof fn lemma_authorization(
    program_id: Key,
    s: Seq<AccountState>,
    now: i64,
    reserve: u64,
    d: TimeLockDeposit,
)
    requires
        s.len() >= 2,
        s[0].is_signer,
        stored_record(s[1].data) == Some(d),
        spec_address_matches(program_id, s[1].key, d),
        !d.is_withdrawn,
        now >= d.unlock_time,
        s[0].key@ != d.sender@,
        s[0].key@ != d.recipient@,
    ensures
        spec_withdraw_outcome(program_id, s, now, reserve) == Err::<Seq<AccountState>, ProcessError>(
            ProcessError::Custom(TimeLockError::UnauthorizedWithdrawal),
        ),
{
}

/// Closing a deposit at its derived address fails with
/// `CannotCloseActiveDeposit` before the withdrawal, with `TooEarlyToClose`
/// before the grace period after unlock has passed, and from then on succeeds
/// for any receiver other than the deposit itself, handing it the whole
/// balance, surplus included, and leaving the deposit empty.
pub proof fn lemma_closure_ordering(
    program_id: Key,
    s: Seq<AccountState>,
    now: i64,
    d: TimeLockDeposit,
)
    requires
        s.len() >= 3,
        s[0].is_signer,
        stored_record(s[2].data) == Some(d),
        spec_address_matches(program_id, s[2].key, d),
        s[1].lamports + s[2].lamports <= u64::MAX,
    ensures
        !d.is_withdrawn ==> spec_close_outcome(program_id, s, now) == Err::<
            Seq<AccountState>,
            ProcessError,
        >(ProcessError::Custom(TimeLockError::CannotCloseActiveDeposit)),
        d.is_withdrawn && now < d.unlock_time + CLOSE_GRACE_PERIOD ==> spec_close_outcome(
            program_id,
            s,
            now,
        ) == Err::<Seq<AccountState>, ProcessError>(
            ProcessError::Custom(TimeLockError::TooEarlyToClose),
        ),
        d.is_withdrawn && now >= d.unlock_time + CLOSE_GRACE_PERIOD && s[1].key@ != s[2].key@ ==> ({
            let r = spec_close_outcome(program_id, s, now);
            &&& r is Ok
            &&& r->Ok_0[2].lamports == 0
            &&& r->Ok_0[2].data.len() == 0
            &&& r->Ok_0[1].lamports == s[1].lamports + s[2].lamports
        }),
{
}

/// Every operation that succeeds moves value between two different accounts
/// only, one gaining what the other loses: the sum of all balances stays as it
/// was, and so does the sum over the distinct accounts.
pub proof fn lemma_conservation(
    program_id: Key,
    s: Seq<AccountState>,
    data: Seq<u8>,
    now: i64,
    reserve: u64,
)
    requires
        spec_process_outcome(program_id, s, data, now, reserve) is Ok,
    ensures
        total_lamports(spec_process_outcome(program_id, s, data, now, reserve)->Ok_0)
            == total_lamports(s),
        exists|i: int, j: int|
            #![trigger s[i], s[j]]
            {
                let t = spec_process_outcome(program_id, s, data, now, reserve)->Ok_0;
                &&& 0 <= i < s.len()
                &&& 0 <= j < s.len()
                &&& s[i].key@ != s[j].key@
                &&& t == s.update(i, t[i]).update(j, t[j])
                &&& t[i].lamports + t[j].lamports == s[i].lamports + s[j].lamports
            },
{
    let t = spec_process_outcome(program_id, s, data, now, reserve)->Ok_0;
    match stored_instruction(data) {
        Some(FuturityInstruction::CreateTimeLockDeposit { .. }) => {
            assert(t =~= s.update(0, t[0]).update(2, t[2]));
            lemma_two_accounts_moved(s, t, 0, 2);
        },
        Some(FuturityInstruction::WithdrawDeposit) => {
            assert(t =~= s.update(0, t[0]).update(1, t[1]));
            lemma_two_accounts_moved(s, t, 0, 1);
        },
        Some(FuturityInstruction::CloseExpiredDeposit) => {
            assert(t =~= s.update(1, t[1]).update(2, t[2]));
            lemma_two_accounts_moved(s, t, 1, 2);
        },
        None => {},
    }
}

/// Two accounts whose balances moved by the same amount in opposite
/// directions leave the total as it was.
proof fn lemma_two_accounts_moved(s: Seq<AccountState>, t: Seq<AccountState>, i: int, j: int)
    requires
        0 <= i < s.len(),
        0 <= j < s.len(),
        i != j,
        t == s.update(i, t[i]).update(j, t[j]),
        t[i].lamports + t[j].lamports == s[i].lamports + s[j].lamports,
    ensures
        total_lamports(t) == total_lamports(s),
{
    lemma_total_update(s, i, t[i]);
    lemma_total_update(s.update(i, t[i]), j, t[j]);
}

} // verus!

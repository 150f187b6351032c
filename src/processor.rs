//! The escrow lifecycle over a list of accounts: create, withdraw, close.
use vstd::prelude::*;
use crate::accounting::transfer;
use crate::address::{
    created_program_address, derive_escrow_address, found_program_address, spec_escrow_seeds,
    verify_escrow_address,
};
use crate::error::ProcessError;
use crate::instruction::{stored_instruction, FuturityInstruction};
use crate::key::Key;
use crate::policy::{
    check_close, check_create, check_withdraw, spec_close_verdict, spec_create_verdict,
    spec_withdraw_verdict,
};
use crate::state::{stored_record, TimeLockDeposit};

verus! {

/// An account as an operation sees it: its address, whether it signed, its
/// balance and its stored bytes.
#[derive(Debug, Clone)]
pub struct Account {
    pub key: Key,
    pub is_signer: bool,
    pub lamports: u64,
    pub data: Vec<u8>,
}

/// The value of an [`Account`].
pub struct AccountState {
    pub key: Key,
    pub is_signer: bool,
    pub lamports: u64,
    pub data: Seq<u8>,
}

impl View for Account {
    type V = AccountState;

    open spec fn view(&self) -> AccountState {
        AccountState {
            key: self.key,
            is_signer: self.is_signer,
            lamports: self.lamports,
            data: self.data@,
        }
    }
}

pub open spec fn states(accounts: Seq<Account>) -> Seq<AccountState> {
    Seq::new(accounts.len(), |i: int| accounts[i]@)
}

/// The sum of the balances of all the accounts.
pub open spec fn total_lamports(s: Seq<AccountState>) -> int
    decreases s.len(),
{
    if s.len() == 0 {
        0
    } else {
        total_lamports(s.drop_last()) + s.last().lamports
    }
}

pub open spec fn with_lamports(a: AccountState, lamports: u64) -> AccountState {
    AccountState { lamports, ..a }
}

pub open spec fn with_lamports_and_data(a: AccountState, lamports: u64, data: Seq<u8>) -> AccountState {
    AccountState { lamports, data, ..a }
}

/// The stored record's address is the one its own terms and bump derive.
pub open spec fn spec_address_matches(program_id: Key, address: Key, d: TimeLockDeposit) -> bool {
    created_program_address(
        spec_escrow_seeds(d.sender@, d.recipient@, d.amount, d.unlock_time).push(seq![d.bump]),
        program_id@,
    ) == Some(address@)
}

/// Creation over `[sender, recipient, deposit, system program]`: the sender
/// signs, the deposit account is still empty, the terms pass the policy and
/// the deposit's address is the one the terms derive and is not the
/// sender's own. Then the sender pays
/// principal and reserve into the deposit, which holds the new record.
pub open spec fn spec_create_outcome(
    program_id: Key,
    s: Seq<AccountState>,
    amount: u64,
    unlock_time: i64,
    now: i64,
    reserve: u64,
) -> Result<Seq<AccountState>, ProcessError> {
    if s.len() < 4 {
        Err(ProcessError::NotEnoughAccountKeys)
    } else if !s[0].is_signer {
        Err(ProcessError::MissingRequiredSignature)
    } else if s[2].lamports != 0 || s[2].data.len() != 0 {
        Err(ProcessError::AccountAlreadyInUse)
    } else if spec_create_verdict(amount, unlock_time, now, reserve, s[0].lamports) is Err {
        Err(ProcessError::Custom(spec_create_verdict(amount, unlock_time, now, reserve, s[0].lamports)->Err_0))
    } else {
        match found_program_address(
            spec_escrow_seeds(s[0].key@, s[1].key@, amount, unlock_time),
            program_id@,
        ) {
            None => Err(ProcessError::InvalidArgument),
            Some(p) => if p.0 != s[2].key@ || s[0].key@ == s[2].key@ {
                Err(ProcessError::InvalidArgument)
            } else {
                let funded = (amount + reserve) as u64;
                let record = TimeLockDeposit::spec_new(
                    s[0].key,
                    s[1].key,
                    amount,
                    unlock_time,
                    now,
                    p.1,
                );
                Ok(
                    s.update(0, with_lamports(s[0], (s[0].lamports - funded) as u64)).update(
                        2,
                        with_lamports_and_data(s[2], funded, record.spec_pack()),
                    ),
                )
            },
        }
    }
}

/// Withdrawal over `[withdrawer, deposit]`: the withdrawer signs, the deposit
/// holds a record at its derived address, and the record's checks pass. Then
/// the released amount moves to the withdrawer, who must be another account
/// than the deposit, and the record is marked.
pub open spec fn spec_withdraw_outcome(
    program_id: Key,
    s: Seq<AccountState>,
    now: i64,
    reserve: u64,
) -> Result<Seq<AccountState>, ProcessError> {
    if s.len() < 2 {
        Err(ProcessError::NotEnoughAccountKeys)
    } else if !s[0].is_signer {
        Err(ProcessError::MissingRequiredSignature)
    } else {
        match stored_record(s[1].data) {
            None => Err(ProcessError::InvalidAccountData),
            Some(d) => if !spec_address_matches(program_id, s[1].key, d) {
                Err(ProcessError::InvalidArgument)
            } else {
                match spec_withdraw_verdict(d, s[0].key, now, s[1].lamports, reserve) {
                    Err(e) => Err(ProcessError::Custom(e)),
                    Ok(amount) => if s[0].key@ == s[1].key@ {
                        Err(ProcessError::InvalidArgument)
                    } else if s[0].lamports + amount > u64::MAX {
                        Err(ProcessError::ArithmeticOverflow)
                    } else {
                        Ok(
                            s.update(
                                0,
                                with_lamports(s[0], (s[0].lamports + amount) as u64),
                            ).update(
                                1,
                                with_lamports_and_data(
                                    s[1],
                                    (s[1].lamports - amount) as u64,
                                    d.spec_withdrawn(now, s[0].key).spec_pack(),
                                ),
                            ),
                        )
                    },
                }
            },
        }
    }
}

/// Closure over `[closer, reserve receiver, deposit]`: the closer signs, the
/// deposit holds a record at its derived address, and the record may be
/// closed. Then its whole balance goes to the receiver, which must be another
/// account than the deposit, and its storage is emptied.
pub open spec fn spec_close_outcome(program_id: Key, s: Seq<AccountState>, now: i64) -> Result<
    Seq<AccountState>,
    ProcessError,
> {
    if s.len() < 3 {
        Err(ProcessError::NotEnoughAccountKeys)
    } else if !s[0].is_signer {
        Err(ProcessError::MissingRequiredSignature)
    } else {
        match stored_record(s[2].data) {
            None => Err(ProcessError::InvalidAccountData),
            Some(d) => if !spec_address_matches(program_id, s[2].key, d) {
                Err(ProcessError::InvalidArgument)
            } else {
                match spec_close_verdict(d, now) {
                    Err(e) => Err(ProcessError::Custom(e)),
                    Ok(_) => if s[1].key@ == s[2].key@ {
                        Err(ProcessError::InvalidArgument)
                    } else if s[1].lamports + s[2].lamports > u64::MAX {
                        Err(ProcessError::ArithmeticOverflow)
                    } else {
                        Ok(
                            s.update(
                                1,
                                with_lamports(s[1], (s[1].lamports + s[2].lamports) as u64),
                            ).update(2, with_lamports_and_data(s[2], 0, Seq::empty())),
                        )
                    },
                }
            },
        }
    }
}

/// The operation written in `data`, applied to the accounts.
pub open spec fn spec_process_outcome(
    program_id: Key,
    s: Seq<AccountState>,
    data: Seq<u8>,
    now: i64,
    reserve: u64,
) -> Result<Seq<AccountState>, ProcessError> {
    match stored_instruction(data) {
        None => Err(ProcessError::InvalidInstructionData),
        Some(FuturityInstruction::CreateTimeLockDeposit { amount, unlock_time }) => spec_create_outcome(
            program_id,
            s,
            amount,
            unlock_time,
            now,
            reserve,
        ),
        Some(FuturityInstruction::WithdrawDeposit) => spec_withdraw_outcome(program_id, s, now, reserve),
        Some(FuturityInstruction::CloseExpiredDeposit) => spec_close_outcome(program_id, s, now),
    }
}

/// The accounts after a call, given the outcome it was meant to have: the new
/// states on success, the old accounts untouched on failure.
pub open spec fn follows(
    outcome: Result<Seq<AccountState>, ProcessError>,
    r: Result<(), ProcessError>,
    before: Seq<Account>,
    after: Seq<Account>,
) -> bool {
    match outcome {
        Ok(s) => r is Ok && states(after) == s,
        Err(e) => r == Err::<(), ProcessError>(e) && after == before,
    }
}

pub struct Processor;

impl Processor {
    /// Reads the operation from `instruction_data` and runs it at time `now`,
    /// where `rent_exempt` is the reserve that an escrow account must keep.
    pub fn process(
        program_id: &Key,
        accounts: &mut Vec<Account>,
        instruction_data: &[u8],
        now: i64,
        rent_exempt: u64,
    ) -> (r: Result<(), ProcessError>)
        ensures
            follows(
                spec_process_outcome(*program_id, states(old(accounts)@), instruction_data@, now, rent_exempt),
                r,
                old(accounts)@,
                final(accounts)@,
            ),
    {
        match FuturityInstruction::unpack(instruction_data) {
            None => Err(ProcessError::InvalidInstructionData),
            Some(FuturityInstruction::CreateTimeLockDeposit { amount, unlock_time }) => {
                Self::process_create(program_id, accounts, amount, unlock_time, now, rent_exempt)
            },
            Some(FuturityInstruction::WithdrawDeposit) => {
                Self::process_withdraw(program_id, accounts, now, rent_exempt)
            },
            Some(FuturityInstruction::CloseExpiredDeposit) => {
                Self::process_close(program_id, accounts, now)
            },
        }
    }

    pub fn process_create(
        program_id: &Key,
        accounts: &mut Vec<Account>,
        amount: u64,
        unlock_time: i64,
        now: i64,
        rent_exempt: u64,
    ) -> (r: Result<(), ProcessError>)
        ensures
            follows(
                spec_create_outcome(*program_id, states(old(accounts)@), amount, unlock_time, now, rent_exempt),
                r,
                old(accounts)@,
                final(accounts)@,
            ),
    {
        let ghost s = states(accounts@);
        if accounts.len() < 4 {
            return Err(ProcessError::NotEnoughAccountKeys);
        }
        if !accounts[0].is_signer {
            return Err(ProcessError::MissingRequiredSignature);
        }
        if accounts[2].lamports != 0 || accounts[2].data.len() != 0 {
            return Err(ProcessError::AccountAlreadyInUse);
        }
        match check_create(amount, unlock_time, now, rent_exempt, accounts[0].lamports) {
            Err(e) => {
                return Err(ProcessError::Custom(e));
            },
            Ok(()) => {},
        }
        let sender = accounts[0].key;
        let recipient = accounts[1].key;
        let (address, bump) = match derive_escrow_address(
            program_id,
            &sender,
            &recipient,
            amount,
            unlock_time,
        ) {
            Some(p) => p,
            None => {
                return Err(ProcessError::InvalidArgument);
            },
        };
        if !address.same_as(&accounts[2].key) || accounts[0].key.same_as(&accounts[2].key) {
            return Err(ProcessError::InvalidArgument);
        }
        let funded = amount + rent_exempt;
        let record = TimeLockDeposit::new(sender, recipient, amount, unlock_time, now, bump);
        let mut from = accounts[0].lamports;
        let mut to = accounts[2].lamports;
        let moved = transfer(&mut from, &mut to, funded);
        assert(moved);
        accounts[0].lamports = from;
        accounts[2].lamports = to;
        accounts[2].data = record.pack();
        assert(states(accounts@) =~= spec_create_outcome(
            *program_id,
            s,
            amount,
            unlock_time,
            now,
            rent_exempt,
        )->Ok_0);
        Ok(())
    }

    pub fn process_withdraw(
        program_id: &Key,
        accounts: &mut Vec<Account>,
        now: i64,
        rent_exempt: u64,
    ) -> (r: Result<(), ProcessError>)
        ensures
            follows(
                spec_withdraw_outcome(*program_id, states(old(accounts)@), now, rent_exempt),
                r,
                old(accounts)@,
                final(accounts)@,
            ),
    {
        let ghost s = states(accounts@);
        if accounts.len() < 2 {
            return Err(ProcessError::NotEnoughAccountKeys);
        }
        if !accounts[0].is_signer {
            return Err(ProcessError::MissingRequiredSignature);
        }
        let mut record = match TimeLockDeposit::unpack(accounts[1].data.as_slice()) {
            Some(d) => d,
            None => {
                return Err(ProcessError::InvalidAccountData);
            },
        };
        if !verify_escrow_address(
            &accounts[1].key,
            program_id,
            &record.sender,
            &record.recipient,
            record.amount,
            record.unlock_time,
            record.bump,
        ) {
            return Err(ProcessError::InvalidArgument);
        }
        let withdrawer = accounts[0].key;
        let amount = match check_withdraw(&record, &withdrawer, now, accounts[1].lamports, rent_exempt) {
            Ok(a) => a,
            Err(e) => {
                return Err(ProcessError::Custom(e));
            },
        };
        if withdrawer.same_as(&accounts[1].key) {
            return Err(ProcessError::InvalidArgument);
        }
        let mut from = accounts[1].lamports;
        let mut to = accounts[0].lamports;
        if !transfer(&mut from, &mut to, amount) {
            return Err(ProcessError::ArithmeticOverflow);
        }
        record.mark_withdrawn(now, withdrawer);
        accounts[0].lamports = to;
        accounts[1].lamports = from;
        accounts[1].data = record.pack();
        assert(states(accounts@) =~= spec_withdraw_outcome(*program_id, s, now, rent_exempt)->Ok_0);
        Ok(())
    }

    pub fn process_close(program_id: &Key, accounts: &mut Vec<Account>, now: i64) -> (r: Result<
        (),
        ProcessError,
    >)
        ensures
            follows(
                spec_close_outcome(*program_id, states(old(accounts)@), now),
                r,
                old(accounts)@,
                final(accounts)@,
            ),
    {
        let ghost s = states(accounts@);
        if accounts.len() < 3 {
            return Err(ProcessError::NotEnoughAccountKeys);
        }
        if !accounts[0].is_signer {
            return Err(ProcessError::MissingRequiredSignature);
        }
        let record = match TimeLockDeposit::unpack(accounts[2].data.as_slice()) {
            Some(d) => d,
            None => {
                return Err(ProcessError::InvalidAccountData);
            },
        };
        if !verify_escrow_address(
            &accounts[2].key,
            program_id,
            &record.sender,
            &record.recipient,
            record.amount,
            record.unlock_time,
            record.bump,
        ) {
            return Err(ProcessError::InvalidArgument);
        }
        match check_close(&record, now) {
            Ok(()) => {},
            Err(e) => {
                return Err(ProcessError::Custom(e));
            },
        }
        if accounts[1].key.same_as(&accounts[2].key) {
            return Err(ProcessError::InvalidArgument);
        }
        let mut from = accounts[2].lamports;
        let mut to = accounts[1].lamports;
        let all = from;
        if !transfer(&mut from, &mut to, all) {
            return Err(ProcessError::ArithmeticOverflow);
        }
        accounts[1].lamports = to;
        accounts[2].lamports = from;
        accounts[2].data = Vec::new();
        assert(states(accounts@) =~= spec_close_outcome(*program_id, s, now)->Ok_0);
        Ok(())
    }
}

} // verus!

use futurity::accounting::{transfer, withdrawable};
use futurity::address::{derive_escrow_address, verify_escrow_address};
use futurity::policy::{
    check_close, check_create, check_withdraw, CLOSE_GRACE_PERIOD, MAX_LOCK_DURATION,
    MIN_LOCK_DURATION, MIN_USER_DEPOSIT_LAMPORTS,
};
use futurity::{
    Account, FuturityInstruction, Key, ProcessError, Processor, TimeLockDeposit, TimeLockError,
    TIME_LOCK_DEPOSIT_LEN,
};

const RESERVE: u64 = 1_809_600;

fn program() -> Key {
    Key([7u8; 32])
}

fn sender() -> Key {
    Key([1u8; 32])
}

fn recipient() -> Key {
    Key([2u8; 32])
}

fn stranger() -> Key {
    Key([9u8; 32])
}

fn account(key: Key, is_signer: bool, lamports: u64) -> Account {
    Account { key, is_signer, lamports, data: Vec::new() }
}

fn total(accounts: &[Account]) -> u128 {
    accounts.iter().map(|a| a.lamports as u128).sum()
}

fn create_ix(amount: u64, unlock_time: i64) -> Vec<u8> {
    FuturityInstruction::CreateTimeLockDeposit { amount, unlock_time }.pack()
}

fn create_accounts(amount: u64, unlock_time: i64, sender_lamports: u64) -> Vec<Account> {
    let (address, _bump) =
        derive_escrow_address(&program(), &sender(), &recipient(), amount, unlock_time).unwrap();
    vec![
        account(sender(), true, sender_lamports),
        account(recipient(), false, 0),
        account(address, false, 0),
        account(Key([0u8; 32]), false, 1),
    ]
}

/// Creates a deposit of 2_000_000 unlocking at 1100, at time 1000; returns
/// the deposit account.
fn created_deposit() -> Account {
    let mut accounts = create_accounts(2_000_000, 1100, 10_000_000);
    let ix = create_ix(2_000_000, 1100);
    assert_eq!(Processor::process(&program(), &mut accounts, &ix, 1000, RESERVE), Ok(()));
    accounts[2].clone()
}

fn withdraw(actor: Key, deposit: &Account, now: i64) -> (Result<(), ProcessError>, Vec<Account>) {
    let mut accounts = vec![account(actor, true, 0), deposit.clone()];
    let ix = FuturityInstruction::WithdrawDeposit.pack();
    let r = Processor::process(&program(), &mut accounts, &ix, now, RESERVE);
    (r, accounts)
}

fn close(deposit: &Account, now: i64) -> (Result<(), ProcessError>, Vec<Account>) {
    let mut accounts = vec![account(stranger(), true, 5), account(Key([4u8; 32]), false, 100), deposit.clone()];
    let ix = FuturityInstruction::CloseExpiredDeposit.pack();
    let r = Processor::process(&program(), &mut accounts, &ix, now, RESERVE);
    (r, accounts)
}

#[test]
fn scenario_create_withdraw_close() {
    let mut accounts = create_accounts(2_000_000, 1100, 10_000_000);
    let before = total(&accounts);
    let ix = create_ix(2_000_000, 1100);
    assert_eq!(Processor::process(&program(), &mut accounts, &ix, 1000, RESERVE), Ok(()));
    assert_eq!(total(&accounts), before);
    assert_eq!(accounts[0].lamports, 10_000_000 - 2_000_000 - RESERVE);
    assert_eq!(accounts[2].lamports, 2_000_000 + RESERVE);
    assert_eq!(accounts[2].data.len(), TIME_LOCK_DEPOSIT_LEN);
    let record = TimeLockDeposit::unpack(&accounts[2].data).unwrap();
    assert_eq!(record.created_at, 1000);
    assert_eq!(record.unlock_time, 1100);
    assert_eq!(record.amount, 2_000_000);
    assert!(record.sender == sender());
    assert!(record.recipient == recipient());
    assert!(!record.is_withdrawn);
    assert_eq!(record.withdrawn_at, None);
    assert!(record.withdrawn_by.is_none());
    let deposit = accounts[2].clone();

    let (r, _) = withdraw(recipient(), &deposit, 1050);
    assert_eq!(r, Err(ProcessError::Custom(TimeLockError::StillLocked)));

    let (r, after) = withdraw(recipient(), &deposit, 1100);
    assert_eq!(r, Ok(()));
    assert_eq!(after[0].lamports, 2_000_000);
    assert_eq!(after[1].lamports, RESERVE);
    let record = TimeLockDeposit::unpack(&after[1].data).unwrap();
    assert!(record.is_withdrawn);
    assert_eq!(record.withdrawn_at, Some(1100));
    assert!(record.withdrawn_by.unwrap() == recipient());

    let (r, closed) = close(&after[1], 1100 + 31_536_000);
    assert_eq!(r, Ok(()));
    assert_eq!(closed[1].lamports, 100 + RESERVE);
    assert_eq!(closed[2].lamports, 0);
    assert!(closed[2].data.is_empty());
}

#[test]
fn amount_below_fixed_floor_is_refused() {
    let mut accounts = create_accounts(999_999, 1100, 10_000_000);
    let ix = create_ix(999_999, 1100);
    let r = Processor::process(&program(), &mut accounts, &ix, 1000, RESERVE);
    assert_eq!(r, Err(ProcessError::Custom(TimeLockError::InsufficientAmount)));
    assert_eq!(accounts[0].lamports, 10_000_000);
}

#[test]
fn amount_below_reserve_is_refused() {
    assert_eq!(check_create(2_000_000, 1100, 1000, 3_000_000, u64::MAX), Err(TimeLockError::InsufficientAmount));
    // the floor comes first, even with bad times
    assert_eq!(check_create(10, 5, 1000, 0, 0), Err(TimeLockError::InsufficientAmount));
    assert_eq!(check_create(MIN_USER_DEPOSIT_LAMPORTS, 1100, 1000, 0, u64::MAX), Ok(()));
}

#[test]
fn time_window_boundaries() {
    let now: i64 = 1000;
    let a = 2_000_000;
    assert_eq!(check_create(a, now + MIN_LOCK_DURATION, now, RESERVE, u64::MAX), Ok(()));
    assert_eq!(
        check_create(a, now + MIN_LOCK_DURATION - 1, now, RESERVE, u64::MAX),
        Err(TimeLockError::LockDurationTooShort)
    );
    assert_eq!(check_create(a, now, now, RESERVE, u64::MAX), Err(TimeLockError::InvalidUnlockTime));
    assert_eq!(check_create(a, now - 5, now, RESERVE, u64::MAX), Err(TimeLockError::InvalidUnlockTime));
    assert_eq!(check_create(a, now + MAX_LOCK_DURATION, now, RESERVE, u64::MAX), Ok(()));
    assert_eq!(
        check_create(a, now + MAX_LOCK_DURATION + 1, now, RESERVE, u64::MAX),
        Err(TimeLockError::ExcessiveUnlockTime)
    );
    assert_eq!(MAX_LOCK_DURATION, 100 * 365 * 24 * 60 * 60);
    assert_eq!(CLOSE_GRACE_PERIOD, 365 * 24 * 60 * 60);
}

#[test]
fn ceiling_overflow_is_excessive() {
    let now = i64::MAX - 100;
    assert_eq!(check_create(2_000_000, i64::MAX, now, 0, u64::MAX), Err(TimeLockError::ExcessiveUnlockTime));
}

#[test]
fn sender_must_fund_principal_and_reserve() {
    assert_eq!(
        check_create(2_000_000, 1100, 1000, RESERVE, 2_000_000 + RESERVE - 1),
        Err(TimeLockError::InsufficientBalance)
    );
    assert_eq!(check_create(2_000_000, 1100, 1000, RESERVE, 2_000_000 + RESERVE), Ok(()));
    assert_eq!(check_create(u64::MAX, 1100, 1000, 5, u64::MAX), Err(TimeLockError::InsufficientBalance));
    let mut accounts = create_accounts(2_000_000, 1100, 3_000_000);
    let r = Processor::process(&program(), &mut accounts, &create_ix(2_000_000, 1100), 1000, RESERVE);
    assert_eq!(r, Err(ProcessError::Custom(TimeLockError::InsufficientBalance)));
}

#[test]
fn injected_surplus_is_not_released() {
    let mut deposit = created_deposit();
    deposit.lamports += 5_000_000;
    let (r, after) = withdraw(sender(), &deposit, 2000);
    assert_eq!(r, Ok(()));
    assert_eq!(after[0].lamports, 2_000_000);
    assert_eq!(after[1].lamports, RESERVE + 5_000_000);
    let (r, closed) = close(&after[1], 1100 + CLOSE_GRACE_PERIOD);
    assert_eq!(r, Ok(()));
    assert_eq!(closed[1].lamports, 100 + RESERVE + 5_000_000);
}

#[test]
fn second_withdrawal_fails_for_anyone() {
    let deposit = created_deposit();
    let (r, after) = withdraw(recipient(), &deposit, 1200);
    assert_eq!(r, Ok(()));
    for actor in [sender(), recipient(), stranger()] {
        let (r, again) = withdraw(actor, &after[1], 1300);
        assert_eq!(r, Err(ProcessError::Custom(TimeLockError::AlreadyWithdrawn)));
        assert_eq!(again[1].lamports, after[1].lamports);
    }
}

#[test]
fn stranger_cannot_withdraw() {
    let deposit = created_deposit();
    let (r, after) = withdraw(stranger(), &deposit, 5000);
    assert_eq!(r, Err(ProcessError::Custom(TimeLockError::UnauthorizedWithdrawal)));
    assert_eq!(after[1].lamports, deposit.lamports);
}

#[test]
fn closure_ordering() {
    let deposit = created_deposit();
    let (r, _) = close(&deposit, 1100 + CLOSE_GRACE_PERIOD + 10);
    assert_eq!(r, Err(ProcessError::Custom(TimeLockError::CannotCloseActiveDeposit)));
    let (r, after) = withdraw(sender(), &deposit, 1100);
    assert_eq!(r, Ok(()));
    let withdrawn = after[1].clone();
    let (r, _) = close(&withdrawn, 1100 + CLOSE_GRACE_PERIOD - 1);
    assert_eq!(r, Err(ProcessError::Custom(TimeLockError::TooEarlyToClose)));
    let (r, closed) = close(&withdrawn, 1100 + CLOSE_GRACE_PERIOD);
    assert_eq!(r, Ok(()));
    assert_eq!(closed[2].lamports, 0);
}

#[test]
fn balances_are_conserved() {
    let mut accounts = create_accounts(3_000_000, 2000, 50_000_000);
    let before = total(&accounts);
    Processor::process(&program(), &mut accounts, &create_ix(3_000_000, 2000), 1000, RESERVE).unwrap();
    assert_eq!(total(&accounts), before);
    let mut w = vec![account(recipient(), true, 77), accounts[2].clone()];
    let before = total(&w);
    Processor::process(&program(), &mut w, &FuturityInstruction::WithdrawDeposit.pack(), 2000, RESERVE).unwrap();
    assert_eq!(total(&w), before);
    assert_eq!(w[0].lamports, 3_000_077);
    let (r, c) = close(&w[1], 2000 + CLOSE_GRACE_PERIOD);
    assert_eq!(r, Ok(()));
    assert_eq!(total(&c), 5 + 100 + RESERVE as u128);
}

#[test]
fn nothing_to_withdraw_at_reserve() {
    let mut deposit = created_deposit();
    deposit.lamports = RESERVE;
    let (r, _) = withdraw(recipient(), &deposit, 1100);
    assert_eq!(r, Err(ProcessError::Custom(TimeLockError::InsufficientFunds)));
    deposit.lamports = RESERVE - 1;
    let (r, _) = withdraw(recipient(), &deposit, 1100);
    assert_eq!(r, Err(ProcessError::Custom(TimeLockError::InsufficientFunds)));
    deposit.lamports = RESERVE + 5;
    let (r, after) = withdraw(recipient(), &deposit, 1100);
    assert_eq!(r, Ok(()));
    assert_eq!(after[0].lamports, 5);
}

#[test]
fn host_failures() {
    let mut accounts = create_accounts(2_000_000, 1100, 10_000_000);
    accounts[0].is_signer = false;
    let r = Processor::process(&program(), &mut accounts, &create_ix(2_000_000, 1100), 1000, RESERVE);
    assert_eq!(r, Err(ProcessError::MissingRequiredSignature));

    let mut short = vec![account(sender(), true, 10_000_000)];
    let r = Processor::process(&program(), &mut short, &create_ix(2_000_000, 1100), 1000, RESERVE);
    assert_eq!(r, Err(ProcessError::NotEnoughAccountKeys));

    let mut accounts = create_accounts(2_000_000, 1100, 10_000_000);
    let r = Processor::process(&program(), &mut accounts, &[3u8], 1000, RESERVE);
    assert_eq!(r, Err(ProcessError::InvalidInstructionData));
    let r = Processor::process(&program(), &mut accounts, &[], 1000, RESERVE);
    assert_eq!(r, Err(ProcessError::InvalidInstructionData));

    let mut accounts = create_accounts(2_000_000, 1100, 10_000_000);
    accounts[2].key = Key([5u8; 32]);
    let r = Processor::process(&program(), &mut accounts, &create_ix(2_000_000, 1100), 1000, RESERVE);
    assert_eq!(r, Err(ProcessError::InvalidArgument));

    let mut accounts = create_accounts(2_000_000, 1100, 10_000_000);
    accounts[2].lamports = 1;
    let r = Processor::process(&program(), &mut accounts, &create_ix(2_000_000, 1100), 1000, RESERVE);
    assert_eq!(r, Err(ProcessError::AccountAlreadyInUse));

    let mut deposit = created_deposit();
    deposit.data[88] = 7;
    let (r, _) = withdraw(recipient(), &deposit, 1100);
    assert_eq!(r, Err(ProcessError::InvalidAccountData));

    let mut moved = created_deposit();
    moved.key = Key([6u8; 32]);
    let (r, _) = withdraw(recipient(), &moved, 1100);
    assert_eq!(r, Err(ProcessError::InvalidArgument));
    let (r, _) = close(&moved, 1100 + CLOSE_GRACE_PERIOD);
    assert_eq!(r, Err(ProcessError::InvalidArgument));
}

#[test]
fn withdrawer_balance_overflow_is_refused() {
    let deposit = created_deposit();
    let mut accounts = vec![account(recipient(), true, u64::MAX), deposit.clone()];
    let r = Processor::process(&program(), &mut accounts, &FuturityInstruction::WithdrawDeposit.pack(), 1100, RESERVE);
    assert_eq!(r, Err(ProcessError::ArithmeticOverflow));
    assert_eq!(accounts[1].lamports, deposit.lamports);
}

#[test]
fn derived_address_verifies_with_its_bump() {
    let (address, bump) = derive_escrow_address(&program(), &sender(), &recipient(), 2_000_000, 1100).unwrap();
    assert!(address != program());
    assert!(address != sender());
    assert!(verify_escrow_address(&address, &program(), &sender(), &recipient(), 2_000_000, 1100, bump));
    assert!(!verify_escrow_address(&address, &program(), &sender(), &recipient(), 2_000_001, 1100, bump));
    assert!(!verify_escrow_address(&program(), &program(), &sender(), &recipient(), 2_000_000, 1100, bump));
    let (other, _) = derive_escrow_address(&program(), &sender(), &recipient(), 2_000_000, 1101).unwrap();
    assert!(other != address);
}

#[test]
fn record_round_trip() {
    let d = TimeLockDeposit {
        sender: sender(),
        recipient: recipient(),
        amount: 0x0102030405060708,
        unlock_time: -2,
        created_at: 1000,
        is_withdrawn: true,
        withdrawn_at: Some(1500),
        withdrawn_by: Some(stranger()),
        bump: 254,
    };
    let bytes = d.pack();
    assert_eq!(bytes.len(), 132);
    assert_eq!(&bytes[64..72], &[8, 7, 6, 5, 4, 3, 2, 1]);
    assert_eq!(&bytes[72..80], &[0xfe, 0xff, 0xff, 0xff, 0xff, 0xff, 0xff, 0xff]);
    assert_eq!(bytes[88], 1);
    assert_eq!(bytes[89], 1);
    assert_eq!(bytes[131], 254);
    let back = TimeLockDeposit::unpack(&bytes).unwrap();
    assert_eq!(back.amount, d.amount);
    assert_eq!(back.unlock_time, -2);
    assert_eq!(back.withdrawn_at, Some(1500));
    assert!(back.withdrawn_by.unwrap() == stranger());
    assert!(TimeLockDeposit::unpack(&bytes[..131]).is_none());
    let mut bad = bytes.clone();
    bad[98] = 0;
    assert!(TimeLockDeposit::unpack(&bad).is_none());
    let fresh = TimeLockDeposit::new(sender(), recipient(), 5, 6, 7, 8).pack();
    assert_eq!(fresh.len(), 132);
    assert!(fresh[89..131].iter().all(|b| *b == 0));
}

#[test]
fn instruction_round_trip() {
    let ix = FuturityInstruction::CreateTimeLockDeposit { amount: 2_000_000, unlock_time: 1100 };
    let bytes = ix.pack();
    assert_eq!(bytes.len(), 17);
    assert_eq!(bytes[0], 0);
    assert_eq!(FuturityInstruction::unpack(&bytes), Some(ix));
    assert_eq!(FuturityInstruction::WithdrawDeposit.pack(), vec![1u8]);
    assert_eq!(FuturityInstruction::CloseExpiredDeposit.pack(), vec![2u8]);
    assert_eq!(FuturityInstruction::unpack(&[2u8]), Some(FuturityInstruction::CloseExpiredDeposit));
    assert_eq!(FuturityInstruction::unpack(&bytes[..16]), None);
}

#[test]
fn withdrawable_clamps() {
    assert_eq!(withdrawable(100, 200, 50), 0);
    assert_eq!(withdrawable(230, 200, 50), 30);
    assert_eq!(withdrawable(1000, 200, 50), 50);
    let mut a = 10u64;
    let mut b = u64::MAX - 5;
    assert!(!transfer(&mut a, &mut b, 6));
    assert_eq!((a, b), (10, u64::MAX - 5));
    assert!(transfer(&mut a, &mut b, 5));
    assert_eq!((a, b), (5, u64::MAX));
    assert!(!transfer(&mut a, &mut b, 6));
}

#[test]
fn record_level_checks() {
    let d = TimeLockDeposit::new(sender(), recipient(), 2_000_000, 1100, 1000, 255);
    assert_eq!(check_withdraw(&d, &sender(), 1099, 10_000_000, RESERVE), Err(TimeLockError::StillLocked));
    assert_eq!(check_withdraw(&d, &sender(), 1100, 10_000_000, RESERVE), Ok(2_000_000));
    assert_eq!(check_close(&d, i64::MAX), Err(TimeLockError::CannotCloseActiveDeposit));
    let mut w = d;
    w.mark_withdrawn(1100, sender());
    assert_eq!(check_close(&w, 1100 + CLOSE_GRACE_PERIOD - 1), Err(TimeLockError::TooEarlyToClose));
    assert_eq!(check_close(&w, 1100 + CLOSE_GRACE_PERIOD), Ok(()));
    assert_eq!(check_withdraw(&w, &stranger(), 1100, 10_000_000, RESERVE), Err(TimeLockError::AlreadyWithdrawn));
}

#[test]
fn error_codes_follow_declaration() {
    assert_eq!(TimeLockError::InvalidUnlockTime.code(), 0);
    assert_eq!(TimeLockError::InsufficientAmount.code(), 5);
    assert_eq!(TimeLockError::CannotCloseActiveDeposit.code(), 10);
    assert_eq!(ProcessError::from(TimeLockError::StillLocked), ProcessError::Custom(TimeLockError::StillLocked));
    assert_eq!(TimeLockError::StillLocked.message(), "Deposit is still time-locked");
}

#[test]
fn deposit_cannot_be_its_own_receiver() {
    let deposit = created_deposit();
    let (r, after) = withdraw(recipient(), &deposit, 1100);
    assert_eq!(r, Ok(()));
    let withdrawn = after[1].clone();
    let mut accounts = vec![account(stranger(), true, 5), withdrawn.clone(), withdrawn.clone()];
    let ix = FuturityInstruction::CloseExpiredDeposit.pack();
    let r = Processor::process(&program(), &mut accounts, &ix, 1100 + CLOSE_GRACE_PERIOD, RESERVE);
    assert_eq!(r, Err(ProcessError::InvalidArgument));
    assert_eq!(accounts[1].lamports, withdrawn.lamports);
    assert_eq!(accounts[2].lamports, withdrawn.lamports);
}

#[test]
fn deposit_cannot_withdraw_from_itself() {
    let deposit = created_deposit();
    let mut accounts = vec![deposit.clone(), deposit.clone()];
    accounts[0].is_signer = true;
    // the deposit's key is neither party, so authorization refuses first
    let ix = FuturityInstruction::WithdrawDeposit.pack();
    let r = Processor::process(&program(), &mut accounts, &ix, 1100, RESERVE);
    assert_eq!(r, Err(ProcessError::Custom(TimeLockError::UnauthorizedWithdrawal)));
    assert_eq!(accounts[1].lamports, deposit.lamports);
}

#[test]
fn sender_cannot_be_the_deposit() {
    let mut accounts = create_accounts(2_000_000, 1100, 10_000_000);
    accounts[0].key = accounts[2].key;
    let r = Processor::process(&program(), &mut accounts, &create_ix(2_000_000, 1100), 1000, RESERVE);
    // the seeds now hold another sender, so the address no longer matches either
    assert_eq!(r, Err(ProcessError::InvalidArgument));
    assert_eq!(accounts[0].lamports, 10_000_000);
}

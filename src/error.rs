use vstd::prelude::*;

verus! {

/// The escrow's own failures, each a terminal validation error.
#[derive(Debug, Clone, Copy, PartialEq, Eq, Structural)]
pub enum TimeLockError {
    InvalidUnlockTime,
    LockDurationTooShort,
    StillLocked,
    AlreadyWithdrawn,
    UnauthorizedWithdrawal,
    InsufficientAmount,
    InsufficientBalance,
    ExcessiveUnlockTime,
    InsufficientFunds,
    TooEarlyToClose,
    CannotCloseActiveDeposit,
}

impl TimeLockError {
    /// The numeric code of the error: its position in the declaration.
    pub open spec fn spec_code(self) -> u32 {
        match self {
            TimeLockError::InvalidUnlockTime => 0,
            TimeLockError::LockDurationTooShort => 1,
            TimeLockError::StillLocked => 2,
            TimeLockError::AlreadyWithdrawn => 3,
            TimeLockError::UnauthorizedWithdrawal => 4,
            TimeLockError::InsufficientAmount => 5,
            TimeLockError::InsufficientBalance => 6,
            TimeLockError::ExcessiveUnlockTime => 7,
            TimeLockError::InsufficientFunds => 8,
            TimeLockError::TooEarlyToClose => 9,
            TimeLockError::CannotCloseActiveDeposit => 10,
        }
    }

    pub fn code(&self) -> (r: u32)
        ensures
            r == self.spec_code(),
    {
        match self {
            TimeLockError::InvalidUnlockTime => 0,
            TimeLockError::LockDurationTooShort => 1,
            TimeLockError::StillLocked => 2,
            TimeLockError::AlreadyWithdrawn => 3,
            TimeLockError::UnauthorizedWithdrawal => 4,
            TimeLockError::InsufficientAmount => 5,
            TimeLockError::InsufficientBalance => 6,
            TimeLockError::ExcessiveUnlockTime => 7,
            TimeLockError::InsufficientFunds => 8,
            TimeLockError::TooEarlyToClose => 9,
            TimeLockError::CannotCloseActiveDeposit => 10,
        }
    }

    /// A human-readable description of the error.
    pub fn message(&self) -> (r: &'static str) {
        match self {
            TimeLockError::InvalidUnlockTime => "Unlock time must be in the future",
            TimeLockError::LockDurationTooShort => "Time-lock duration too short",
            TimeLockError::StillLocked => "Deposit is still time-locked",
            TimeLockError::AlreadyWithdrawn => "Deposit has already been withdrawn",
            TimeLockError::UnauthorizedWithdrawal => "Only sender or recipient may withdraw",
            TimeLockError::InsufficientAmount => "Amount below minimum or rent-exempt threshold",
            TimeLockError::InsufficientBalance => "Insufficient balance to create deposit",
            TimeLockError::ExcessiveUnlockTime => "Unlock time exceeds 100-year maximum",
            TimeLockError::InsufficientFunds => "No funds available to withdraw",
            TimeLockError::TooEarlyToClose => "Too early to close withdrawn deposit",
            TimeLockError::CannotCloseActiveDeposit => "Cannot close an active (non-withdrawn) deposit",
        }
    }
}

/// Why an operation was refused: one of the escrow's own errors, or a failure
/// that the host surfaces (a missing signature, a malformed payload, a wrong
/// account reference).
#[derive(Debug, Clone, Copy, PartialEq, Eq, Structural)]
pub enum ProcessError {
    Custom(TimeLockError),
    NotEnoughAccountKeys,
    MissingRequiredSignature,
    InvalidInstructionData,
    InvalidAccountData,
    InvalidArgument,
    AccountAlreadyInUse,
    ArithmeticOverflow,
}

impl From<TimeLockError> for ProcessError {
    fn from(e: TimeLockError) -> (r: ProcessError) {
        ProcessError::Custom(e)
    }
}

impl vstd::std_specs::convert::FromSpecImpl<TimeLockError> for ProcessError {
    open spec fn obeys_from_spec() -> bool {
        true
    }

    open spec fn from_spec(e: TimeLockError) -> ProcessError {
        ProcessError::Custom(e)
    }
}

} // verus!

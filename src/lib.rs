//! A time-locked escrow: value deposited for a recipient that can be claimed
//! once an unlock time has passed, with a grace period after which the
//! emptied escrow account can be reclaimed.

pub mod accounting;
pub mod address;
pub mod error;
pub mod instruction;
pub mod key;
pub mod laws;
pub mod policy;
pub mod processor;
pub mod state;
pub mod wire;

pub use error::{ProcessError, TimeLockError};
pub use key::Key;
pub use instruction::FuturityInstruction;
pub use processor::{Account, Processor};
pub use state::{TimeLockDeposit, TIME_LOCK_DEPOSIT_LEN};

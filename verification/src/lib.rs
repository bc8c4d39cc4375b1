//! Linear vesting schedules for locked balances.
//!
//! An account may hold several schedules, each of which releases a locked
//! amount at a fixed rate per block. This crate holds the arithmetic of one
//! schedule, the merge of two schedules, and the bookkeeping that keeps an
//! account's balance lock equal to what its schedules still hold back.
//! It reads no storage and moves no funds: every operation takes the
//! account's stored schedules and the current block, and returns what is to
//! be stored, the lock to set, and the events to emit. What is to be logged
//! of an operation is told by a function of its own.

pub mod anomaly;
pub mod error;
pub mod genesis;
pub mod merge;
pub mod pallet;
pub mod schedules;
pub mod vesting_info;

pub use anomaly::Anomaly;
pub use error::Error;
pub use genesis::GenesisConfig;
pub use pallet::{Config, Event, Pallet, Update};
pub use schedules::VestingAction;
pub use vesting_info::{Balance, BlockNumber, VestingInfo};

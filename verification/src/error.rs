use vstd::prelude::*;

verus! {

/// Why an operation on an account's vesting schedules was refused.
#[derive(Clone, Copy, Debug, PartialEq, Eq, Structural)]
pub enum Error {
    /// The account has no vesting schedules.
    NotVesting,
    /// The account already holds the maximum number of schedules.
    AtMaxVestingSchedules,
    /// The amount is too low to create a vesting schedule.
    AmountLow,
    /// A schedule index does not name one of the account's schedules.
    ScheduleIndexOutOfBounds,
    /// A schedule has nothing locked, or releases nothing per block.
    InvalidScheduleParams,
    /// The block at which a schedule ends is beyond the last block number.
    ArithmeticOverflow,
}

} // verus!

use crate::error::Error;
use vstd::prelude::*;

verus! {

/// An amount of currency.
pub type Balance = u128;

/// The amount `x`, capped at the largest balance.
pub open spec fn saturated(x: int) -> Balance
    recommends
        0 <= x,
{
    if x > u128::MAX {
        u128::MAX
    } else {
        x as Balance
    }
}

/// A point on the time axis.
pub type BlockNumber = u64;

/// One linear release curve: `locked` is held back up to `starting_block`,
/// and from there on `per_block` of it is released with every block.
#[derive(Clone, Copy, Debug, PartialEq, Eq, Structural)]
pub struct VestingInfo {
    /// The amount locked when the schedule was created.
    pub locked: Balance,
    /// The amount released per block after `starting_block`.
    pub per_block: Balance,
    /// The block after which the release begins.
    pub starting_block: BlockNumber,
}

impl VestingInfo {
    /// The amount still locked at block `n`: all of `locked` up to the
    /// starting block, afterwards `locked` less `per_block` for each block
    /// elapsed, and never less than zero.
    pub open spec fn spec_locked_at(self, n: BlockNumber) -> int {
        if n <= self.starting_block {
            self.locked as int
        } else {
            let unlocked = self.per_block * (n - self.starting_block);
            if unlocked >= self.locked {
                0
            } else {
                self.locked - unlocked
            }
        }
    }

    /// The rate used to find the end of the schedule: a stored rate of zero
    /// counts as one.
    pub open spec fn effective_per_block(self) -> int {
        if self.per_block == 0 {
            1
        } else {
            self.per_block as int
        }
    }

    /// The number of blocks the release takes: `locked` divided by the
    /// effective rate, rounded up.
    pub open spec fn spec_duration(self) -> int {
        (self.locked + self.effective_per_block() - 1) / self.effective_per_block()
    }

    /// The block at which the schedule ends, as an unbounded integer.
    pub open spec fn spec_ending(self) -> int {
        self.starting_block + self.spec_duration()
    }

    /// The block at which the schedule ends, or `ArithmeticOverflow` where
    /// that block is beyond the last block number.
    pub open spec fn spec_ending_block(self) -> Result<BlockNumber, Error> {
        if self.spec_ending() <= u64::MAX {
            Ok(self.spec_ending() as BlockNumber)
        } else {
            Err(Error::ArithmeticOverflow)
        }
    }

    /// Whether something is locked and something is released per block.
    pub open spec fn is_valid(self) -> bool {
        self.locked > 0 && self.per_block > 0
    }

    /// The schedule itself where it is valid, `InvalidScheduleParams` where
    /// it is not.
    pub open spec fn spec_validate(self) -> Result<VestingInfo, Error> {
        if self.is_valid() {
            Ok(self)
        } else {
            Err(Error::InvalidScheduleParams)
        }
    }

    /// The schedule with its rate capped at `locked`.
    pub open spec fn spec_correct(self) -> VestingInfo {
        VestingInfo {
            locked: self.locked,
            per_block: if self.per_block > self.locked {
                self.locked
            } else {
                self.per_block
            },
            starting_block: self.starting_block,
        }
    }

    /// A schedule of the given parameters, unchecked.
    pub fn new(locked: Balance, per_block: Balance, starting_block: BlockNumber) -> (r: VestingInfo)
        ensures
            r == (VestingInfo { locked, per_block, starting_block }),
    {
        VestingInfo { locked, per_block, starting_block }
    }

    /// The amount locked when the schedule was created.
    pub fn locked(&self) -> (r: Balance)
        ensures
            r == self.locked,
    {
        self.locked
    }

    /// The amount released per block, as stored.
    pub fn per_block(&self) -> (r: Balance)
        ensures
            r == self.per_block,
    {
        self.per_block
    }

    /// The block after which the release begins.
    pub fn starting_block(&self) -> (r: BlockNumber)
        ensures
            r == self.starting_block,
    {
        self.starting_block
    }

    /// Checks that something is locked and that something is released per
    /// block. The schedule comes back unchanged. No minimum amount is asked
    /// for here.
    pub fn validate(self) -> (r: Result<VestingInfo, Error>)
        ensures
            r == self.spec_validate(),
    {
        if self.locked == 0 || self.per_block == 0 {
            Err(Error::InvalidScheduleParams)
        } else {
            Ok(self)
        }
    }

    /// Caps the rate at `locked`, so that the schedule never releases more
    /// than it holds in one block.
    pub fn correct(self) -> (r: VestingInfo)
        ensures
            r == self.spec_correct(),
            self.is_valid() ==> 1 <= r.per_block <= r.locked,
    {
        let per_block: Balance = if self.per_block > self.locked {
            self.locked
        } else {
            self.per_block
        };
        VestingInfo { locked: self.locked, per_block, starting_block: self.starting_block }
    }

    /// The amount still locked at block `n`.
    pub fn locked_at(&self, n: BlockNumber) -> (r: Balance)
        ensures
            r == self.spec_locked_at(n),
    {
        if n <= self.starting_block {
            return self.locked;
        }
        let elapsed: u128 = (n - self.starting_block) as u128;
        let unlocked: u128 = match self.per_block.checked_mul(elapsed) {
            Some(amount) => amount,
            None => u128::MAX,
        };
        self.locked.saturating_sub(unlocked)
    }

    /// The first block at which nothing is locked any more, or
    /// `ArithmeticOverflow` where that block is beyond the last block number.
    pub fn ending_block(&self) -> (r: Result<BlockNumber, Error>)
        ensures
            r == self.spec_ending_block(),
    {
        let rate: u128 = if self.per_block == 0 {
            1
        } else {
            self.per_block
        };
        let whole: u128 = self.locked / rate;
        let rest: u128 = self.locked % rate;
        proof {
            lemma_round_up(self.locked as int, rate as int);
        }
        let room: u128 = (u64::MAX - self.starting_block) as u128;
        if whole > room || (rest != 0 && whole == room) {
            return Err(Error::ArithmeticOverflow);
        }
        let duration: u128 = if rest == 0 {
            whole
        } else {
            whole + 1
        };
        Ok(self.starting_block + duration as u64)
    }
}

/// Rounding up by adding `d - 1` before dividing gives the quotient, and one
/// more where the division leaves a remainder.
pub proof fn lemma_round_up(x: int, d: int)
    requires
        0 <= x,
        0 < d,
    ensures
        (x + d - 1) / d == if x % d == 0 {
            x / d
        } else {
            x / d + 1
        },
{
    let q = x / d;
    let r = x % d;
    vstd::arithmetic::div_mod::lemma_fundamental_div_mod(x, d);
    vstd::arithmetic::div_mod::lemma_mod_bound(x, d);
    assert(x == d * q + r);
    if r == 0 {
        assert(x + d - 1 == d * q + (d - 1));
        vstd::arithmetic::div_mod::lemma_fundamental_div_mod_converse(x + d - 1, d, q, d - 1);
    } else {
        assert(d * (q + 1) == d * q + d) by (nonlinear_arith);
        assert(x + d - 1 == d * (q + 1) + (r - 1));
        vstd::arithmetic::div_mod::lemma_fundamental_div_mod_converse(x + d - 1, d, q + 1, r - 1);
    }
}

/// The duration of a schedule is the least number of blocks in which the
/// effective rate releases all of `locked`.
pub proof fn lemma_duration_is_least(s: VestingInfo)
    ensures
        0 <= s.spec_duration(),
        s.spec_duration() * s.effective_per_block() >= s.locked,
        (s.spec_duration() - 1) * s.effective_per_block() < s.locked,
{
    let p = s.effective_per_block();
    let y = s.locked + p - 1;
    let d = y / p;
    vstd::arithmetic::div_mod::lemma_fundamental_div_mod(y, p);
    vstd::arithmetic::div_mod::lemma_mod_bound(y, p);
    assert(d * p == p * d) by (nonlinear_arith);
    assert((d - 1) * p == p * d - p) by (nonlinear_arith);
    assert(0 <= d) by (nonlinear_arith)
        requires
            p * d > -p,
            p > 0,
    ;
}

/// The locked amount never grows: at a later block no more is locked than at
/// an earlier one.
pub proof fn lemma_locked_at_non_increasing(s: VestingInfo, earlier: BlockNumber, later: BlockNumber)
    requires
        earlier <= later,
    ensures
        s.spec_locked_at(later) <= s.spec_locked_at(earlier),
        0 <= s.spec_locked_at(later) <= s.locked,
{
    if earlier > s.starting_block {
        let a = earlier - s.starting_block;
        let b = later - s.starting_block;
        assert(s.per_block * a <= s.per_block * b) by (nonlinear_arith)
            requires
                0 <= a <= b,
                0 <= s.per_block,
        ;
    }
}

/// From its ending block on, a schedule holds nothing locked. A schedule
/// that has something locked and a stored rate of zero is left out: it
/// never releases anything.
pub proof fn lemma_unlocked_from_ending(s: VestingInfo, n: BlockNumber)
    requires
        s.per_block > 0 || s.locked == 0,
        n >= s.spec_ending(),
    ensures
        s.spec_locked_at(n) == 0,
{
    lemma_duration_is_least(s);
    if n > s.starting_block && s.locked > 0 {
        let e = n - s.starting_block;
        let d = s.spec_duration();
        let p = s.per_block as int;
        assert(p * e >= d * p) by (nonlinear_arith)
            requires
                e >= d,
                p > 0,
        ;
    } else if s.locked > 0 {
        let d = s.spec_duration();
        let p = s.effective_per_block();
        assert(d == 0);
        assert(d * p == 0) by (nonlinear_arith)
            requires
                d == 0,
        ;
    }
}

/// Before its ending block, a schedule with something locked still holds
/// some of it: the ending block is the first at which nothing is locked.
pub proof fn lemma_locked_before_ending(s: VestingInfo, n: BlockNumber)
    requires
        s.locked > 0,
        n < s.spec_ending(),
    ensures
        s.spec_locked_at(n) > 0,
{
    lemma_duration_is_least(s);
    if n > s.starting_block {
        let e = n - s.starting_block;
        let d = s.spec_duration();
        let p = s.effective_per_block();
        let raw = s.per_block as int;
        assert(raw * e <= (d - 1) * p) by (nonlinear_arith)
            requires
                0 <= e <= d - 1,
                0 <= raw <= p,
        ;
    }
}

/// A schedule with something locked, corrected or not, does not end before
/// the block after its starting block.
pub proof fn lemma_ends_after_start(s: VestingInfo)
    requires
        s.locked > 0,
    ensures
        s.spec_ending() >= s.starting_block + 1,
        s.spec_correct().spec_ending() >= s.starting_block + 1,
{
    lemma_duration_is_least(s);
    lemma_duration_is_least(s.spec_correct());
    let d = s.spec_duration();
    let p = s.effective_per_block();
    assert(d >= 1) by (nonlinear_arith)
        requires
            d * p >= 1,
            d >= 0,
            p >= 1,
    ;
    let dc = s.spec_correct().spec_duration();
    let pc = s.spec_correct().effective_per_block();
    assert(dc >= 1) by (nonlinear_arith)
        requires
            dc * pc >= 1,
            dc >= 0,
            pc >= 1,
    ;
}

/// After `correct`, the rate is at least one and at most `locked` exactly
/// where something was locked and the rate was not zero.
pub proof fn lemma_correct_bounds_rate(s: VestingInfo)
    ensures
        (1 <= s.spec_correct().per_block <= s.spec_correct().locked) <==> s.is_valid(),
        s.spec_correct().is_valid() <==> s.is_valid(),
{
}

/// A valid schedule that has been corrected passes validation unchanged.
pub proof fn lemma_validate_after_correct(s: VestingInfo)
    requires
        s.locked > 0,
        s.per_block > 0,
    ensures
        s.spec_correct().spec_validate() == Ok::<VestingInfo, Error>(s.spec_correct()),
{
}

} // verus!

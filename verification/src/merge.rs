use crate::error::Error;
use crate::pallet::{stored, Pallet, Update};
use crate::schedules::{lemma_survivors_make_room, lemma_total_locked_push, survivors, VestingAction};
use crate::vesting_info::{
    lemma_duration_is_least, lemma_locked_at_non_increasing, lemma_locked_before_ending, saturated,
    Balance, BlockNumber, VestingInfo,
};
use vstd::prelude::*;

verus! {

/// The latest of the current block and the two starting blocks.
pub open spec fn latest_start(now: BlockNumber, a: VestingInfo, b: VestingInfo) -> BlockNumber {
    let first = if a.starting_block > now {
        a.starting_block
    } else {
        now
    };
    if b.starting_block > first {
        b.starting_block
    } else {
        first
    }
}

/// The later of the two ending blocks.
pub open spec fn latest_ending(a: VestingInfo, b: VestingInfo) -> int {
    if a.spec_ending() >= b.spec_ending() {
        a.spec_ending()
    } else {
        b.spec_ending()
    }
}

/// The rate that releases `locked` over `duration` blocks: one where there
/// are more blocks than units, all at once where there is no block left,
/// else the whole quotient.
pub open spec fn merged_rate(locked: Balance, duration: int) -> Balance {
    if duration > locked {
        1
    } else if duration == 0 {
        locked
    } else {
        (locked / (duration as Balance)) as Balance
    }
}

/// The one schedule that stands for two schedules which both end after
/// `now`: it locks what the two still lock at `now`, starts at the latest of
/// `now` and their starting blocks, and ends with the later of them. `None`
/// where the two lock nothing.
pub open spec fn spec_merge_active(now: BlockNumber, a: VestingInfo, b: VestingInfo) -> Option<
    VestingInfo,
> {
    let locked = saturated(a.spec_locked_at(now) + b.spec_locked_at(now));
    if locked == 0 {
        None
    } else {
        let starting_block = latest_start(now, a, b);
        let duration = latest_ending(a, b) - starting_block;
        Some(
            (VestingInfo {
                locked,
                per_block: merged_rate(locked, duration),
                starting_block,
            }).spec_correct(),
        )
    }
}

/// What merging `a` and `b` at block `now` gives. A schedule that has ended
/// by `now` is dropped and the other one is kept as it is; two that are both
/// running are replaced by `spec_merge_active`.
pub open spec fn spec_merge_vesting_info(now: BlockNumber, a: VestingInfo, b: VestingInfo) -> Result<
    Option<VestingInfo>,
    Error,
> {
    if a.spec_ending() > u64::MAX || b.spec_ending() > u64::MAX {
        Err(Error::ArithmeticOverflow)
    } else if a.spec_ending() <= now {
        if b.spec_ending() <= now {
            Ok(None)
        } else {
            Ok(Some(b))
        }
    } else if b.spec_ending() <= now {
        Ok(Some(a))
    } else {
        Ok(spec_merge_active(now, a, b))
    }
}

/// What merging the schedules at two indices of an account leaves, at block
/// `now`: the schedules that stay once the two are taken out and the others
/// are brought up to date, with the merged schedule, where there is one, as
/// the last of them; and that merged schedule.
///
/// `Ok(None)` where the two indices are the same and nothing changes;
/// `NotVesting` where the account has no schedules;
/// `ScheduleIndexOutOfBounds` where an index names none of them; the error
/// of the merge itself; `AtMaxVestingSchedules` where the result would be
/// more schedules than an account may hold.
pub open spec fn spec_merge_schedules(
    max: u32,
    vesting: Option<Seq<VestingInfo>>,
    schedule1_index: u32,
    schedule2_index: u32,
    now: BlockNumber,
) -> Result<Option<(Seq<VestingInfo>, Option<VestingInfo>)>, Error> {
    if schedule1_index == schedule2_index {
        Ok(None)
    } else {
        match vesting {
            None => Err(Error::NotVesting),
            Some(schedules) => if schedule1_index >= schedules.len() || schedule2_index
                >= schedules.len() {
                Err(Error::ScheduleIndexOutOfBounds)
            } else {
                let kept = survivors(
                    schedules,
                    VestingAction::Merge(schedule1_index as usize, schedule2_index as usize),
                    now,
                );
                match spec_merge_vesting_info(
                    now,
                    schedules[schedule1_index as int],
                    schedules[schedule2_index as int],
                ) {
                    Err(e) => Err(e),
                    Ok(None) => if kept.len() > max {
                        Err(Error::AtMaxVestingSchedules)
                    } else {
                        Ok(Some((kept, None)))
                    },
                    Ok(Some(merged)) => if kept.len() >= max {
                        Err(Error::AtMaxVestingSchedules)
                    } else {
                        Ok(Some((kept.push(merged), Some(merged))))
                    },
                }
            },
        }
    }
}

impl Pallet {
    /// Merges the schedules at two indices of an account at block `now`.
    ///
    /// The indices count the schedules as they are handed in. The two are
    /// taken out, the others are brought up to date and keep their order,
    /// and the merged schedule, where there is one, becomes the last: so an
    /// index is good only for the schedules that were just read. Equal
    /// indices change nothing.
    pub fn merge_schedules<A>(
        &self,
        who: A,
        vesting: Option<Vec<VestingInfo>>,
        schedule1_index: u32,
        schedule2_index: u32,
        now: BlockNumber,
    ) -> (r: Result<Option<Update<A>>, Error>)
        ensures
            match spec_merge_schedules(
                self.config.max_vesting_schedules,
                stored(vesting),
                schedule1_index,
                schedule2_index,
                now,
            ) {
                Err(e) => r matches Err(x) && x == e,
                Ok(None) => r matches Ok(None),
                Ok(Some((kept, merged))) => r matches Ok(Some(update)) && update.records(
                    who,
                    kept,
                    now,
                    merged,
                ),
            },
    {
        if schedule1_index == schedule2_index {
            return Ok(None);
        }
        let schedule1_index: usize = schedule1_index as usize;
        let schedule2_index: usize = schedule2_index as usize;
        let vesting: Vec<VestingInfo> = match vesting {
            Some(schedules) => schedules,
            None => {
                return Err(Error::NotVesting);
            },
        };
        if schedule1_index >= vesting.len() || schedule2_index >= vesting.len() {
            return Err(Error::ScheduleIndexOutOfBounds);
        }
        let schedule1: VestingInfo = vesting[schedule1_index];
        let schedule2: VestingInfo = vesting[schedule2_index];
        let merge_action: VestingAction = VestingAction::Merge(schedule1_index, schedule2_index);

        let (mut schedules, mut locked_now) = Self::report_schedule_updates(
            vesting,
            merge_action,
            now,
        );
        let merged: Option<VestingInfo> = match Self::merge_vesting_info(now, schedule1, schedule2) {
            Ok(merged) => merged,
            Err(e) => {
                return Err(e);
            },
        };
        match merged {
            Some(new_schedule) => {
                if schedules.len() >= self.config.max_vesting_schedules as usize {
                    return Err(Error::AtMaxVestingSchedules);
                }
                proof {
                    lemma_total_locked_push(schedules@, new_schedule, now);
                }
                schedules.push(new_schedule);
                let new_schedule_locked: Balance = new_schedule.locked_at(now);
                locked_now = locked_now.saturating_add(new_schedule_locked);
            },
            None => {},
        }
        match self.settle(who, schedules, locked_now, merged, Ghost(now)) {
            Ok(update) => Ok(Some(update)),
            Err(e) => Err(e),
        }
    }

    /// Merges two schedules at block `now` into at most one.
    ///
    /// Fails with `ArithmeticOverflow` where the end of either schedule is
    /// beyond the last block number. Where both have ended there is no
    /// schedule left; where one has ended the other is returned unchanged.
    pub fn merge_vesting_info(now: BlockNumber, schedule1: VestingInfo, schedule2: VestingInfo) -> (r:
        Result<Option<VestingInfo>, Error>)
        ensures
            r == spec_merge_vesting_info(now, schedule1, schedule2),
    {
        let ending1: BlockNumber = match schedule1.ending_block() {
            Ok(block) => block,
            Err(e) => {
                return Err(e);
            },
        };
        let ending2: BlockNumber = match schedule2.ending_block() {
            Ok(block) => block,
            Err(e) => {
                return Err(e);
            },
        };
        let ended1: bool = ending1 <= now;
        let ended2: bool = ending2 <= now;
        if ended1 && ended2 {
            return Ok(None);
        }
        if ended1 {
            return Ok(Some(schedule2));
        }
        if ended2 {
            return Ok(Some(schedule1));
        }
        let locked: Balance = schedule1.locked_at(now).saturating_add(schedule2.locked_at(now));
        if locked == 0 {
            return Ok(None);
        }
        let ending_block: BlockNumber = if ending1 >= ending2 {
            ending1
        } else {
            ending2
        };
        let first: BlockNumber = if schedule1.starting_block() > now {
            schedule1.starting_block()
        } else {
            now
        };
        let starting_block: BlockNumber = if schedule2.starting_block() > first {
            schedule2.starting_block()
        } else {
            first
        };
        proof {
            lemma_duration_is_least(schedule1);
            lemma_duration_is_least(schedule2);
        }
        let duration: u128 = (ending_block - starting_block) as u128;
        let per_block: Balance = if duration > locked {
            1
        } else {
            match locked.checked_div(duration) {
                None => locked,
                Some(rate) => rate,
            }
        };
        Ok(Some(VestingInfo::new(locked, per_block, starting_block).correct()))
    }
}

/// Merging does not depend on the order in which the two schedules are
/// given.
pub proof fn lemma_merge_commutes(now: BlockNumber, a: VestingInfo, b: VestingInfo)
    ensures
        spec_merge_vesting_info(now, a, b) == spec_merge_vesting_info(now, b, a),
{
}

/// Where two schedules both end after `now`, their merge locks what the two
/// lock at `now` together, does not start before `now`, and has a rate of
/// at least one and at most what it locks. There is such a merge as soon as
/// one of the two has anything locked.
pub proof fn lemma_merge_active_is_valid(now: BlockNumber, a: VestingInfo, b: VestingInfo)
    requires
        a.spec_ending() > now,
        b.spec_ending() > now,
    ensures
        spec_merge_active(now, a, b) matches Some(m) ==> {
            &&& m.locked == saturated(a.spec_locked_at(now) + b.spec_locked_at(now))
            &&& m.starting_block >= now
            &&& m.is_valid()
            &&& m.per_block <= m.locked
            &&& m.spec_locked_at(now) == m.locked
        },
        a.locked > 0 || b.locked > 0 ==> spec_merge_active(now, a, b) is Some,
{
    lemma_locked_at_non_increasing(a, now, now);
    lemma_locked_at_non_increasing(b, now, now);
    if a.locked > 0 {
        lemma_locked_before_ending(a, now);
    }
    if b.locked > 0 {
        lemma_locked_before_ending(b, now);
    }
    let locked = saturated(a.spec_locked_at(now) + b.spec_locked_at(now));
    if locked != 0 {
        lemma_duration_is_least(a);
        lemma_duration_is_least(b);
        let duration = latest_ending(a, b) - latest_start(now, a, b);
        if 0 < duration <= locked {
            let d = duration as Balance;
            vstd::arithmetic::div_mod::lemma_div_non_zero(locked as int, d as int);
            vstd::arithmetic::div_mod::lemma_div_is_ordered_by_denominator(locked as int, 1, d as int);
        }
    }
}

/// For an account that holds no more schedules than it may, merging two of
/// them never fails for want of room: two schedules are taken out before at
/// most one is added.
pub proof fn lemma_merge_has_room(
    max: u32,
    vesting: Option<Seq<VestingInfo>>,
    schedule1_index: u32,
    schedule2_index: u32,
    now: BlockNumber,
)
    requires
        vesting matches Some(schedules) ==> schedules.len() <= max,
    ensures
        spec_merge_schedules(max, vesting, schedule1_index, schedule2_index, now) != Err::<
            Option<(Seq<VestingInfo>, Option<VestingInfo>)>,
            Error,
        >(Error::AtMaxVestingSchedules),
{
    if let Some(schedules) = vesting {
        lemma_survivors_make_room(
            schedules,
            VestingAction::Merge(schedule1_index as usize, schedule2_index as usize),
            now,
        );
    }
}

/// From `now` or its starting block on, whichever is later, a schedule
/// that ends after `now` runs for no more blocks than it has units locked
/// at `now`.
pub proof fn lemma_rest_within_locked(now: BlockNumber, s: VestingInfo)
    requires
        s.spec_ending() > now,
    ensures
        s.spec_ending() - (if s.starting_block > now {
            s.starting_block
        } else {
            now
        }) <= s.spec_locked_at(now),
{
    lemma_duration_is_least(s);
    let p = s.effective_per_block();
    let d = s.spec_duration();
    let l = s.locked as int;
    if now <= s.starting_block {
        assert(d <= l) by (nonlinear_arith)
            requires
                (d - 1) * p < l,
                p >= 1,
                d >= 0,
                l >= 0,
        ;
    } else {
        let e = now - s.starting_block;
        let raw = s.per_block as int;
        assert(raw * e <= (d - 1) * p) by (nonlinear_arith)
            requires
                0 <= e <= d - 1,
                0 <= raw <= p,
        ;
        assert(d - e <= l - raw * e) by (nonlinear_arith)
            requires
                (d - 1) * p < l,
                0 <= e <= d - 1,
                0 <= raw <= p,
                p >= 1,
                raw == 0 ==> p == 1,
                raw > 0 ==> p == raw,
        ;
    }
}

/// Two schedules that both end after `now` never leave more blocks to run
/// than units to release: the rate of their merge is the whole quotient of
/// the two, or all that is locked where no block is left, and is not forced
/// to one.
pub proof fn lemma_merge_duration_within_locked(now: BlockNumber, a: VestingInfo, b: VestingInfo)
    requires
        a.spec_ending() > now,
        b.spec_ending() > now,
    ensures
        0 <= latest_ending(a, b) - latest_start(now, a, b) <= saturated(
            a.spec_locked_at(now) + b.spec_locked_at(now),
        ),
{
    lemma_rest_within_locked(now, a);
    lemma_rest_within_locked(now, b);
    lemma_duration_is_least(a);
    lemma_duration_is_least(b);
    lemma_locked_at_non_increasing(a, now, now);
    lemma_locked_at_non_increasing(b, now, now);
}

} // verus!

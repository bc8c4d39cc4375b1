use crate::pallet::Pallet;
use crate::vesting_info::{
    lemma_locked_at_non_increasing, saturated, Balance, BlockNumber, VestingInfo,
};
use vstd::prelude::*;

verus! {

/// What to take out of an account's schedules while they are brought up to
/// date. Indices count the schedules as they stood before the update.
#[derive(Clone, Copy, Debug, PartialEq, Eq)]
pub enum VestingAction {
    /// Take out no schedule but those that have nothing locked.
    Passive,
    /// Take out the schedule at the index.
    Remove(usize),
    /// Take out the two schedules at the indices, so that they can be merged.
    Merge(usize, usize),
}

impl VestingAction {
    /// Whether the action takes out the schedule at `index`.
    pub open spec fn spec_should_remove(self, index: int) -> bool {
        match self {
            VestingAction::Passive => false,
            VestingAction::Remove(index1) => index1 == index,
            VestingAction::Merge(index1, index2) => index1 == index || index2 == index,
        }
    }

    /// Whether the action takes out the schedule at `index`.
    pub fn should_remove(&self, index: &usize) -> (r: bool)
        ensures
            r == self.spec_should_remove(*index as int),
    {
        match self {
            VestingAction::Passive => false,
            VestingAction::Remove(index1) => *index1 == *index,
            VestingAction::Merge(index1, index2) => *index1 == *index || *index2 == *index,
        }
    }
}

/// Whether the schedule at `index` stays: it still locks something at `now`
/// and the action does not take it out.
pub open spec fn survives(
    schedule: VestingInfo,
    index: int,
    action: VestingAction,
    now: BlockNumber,
) -> bool {
    schedule.spec_locked_at(now) != 0 && !action.spec_should_remove(index)
}

/// The schedules that stay, in the order in which they stood.
pub open spec fn survivors(schedules: Seq<VestingInfo>, action: VestingAction, now: BlockNumber) -> Seq<
    VestingInfo,
>
    decreases schedules.len(),
{
    if schedules.len() == 0 {
        Seq::empty()
    } else {
        let last = schedules.len() - 1;
        let before = survivors(schedules.drop_last(), action, now);
        if survives(schedules[last], last, action, now) {
            before.push(schedules[last])
        } else {
            before
        }
    }
}

/// The sum of what the schedules lock at `now`.
pub open spec fn total_locked(schedules: Seq<VestingInfo>, now: BlockNumber) -> int
    decreases schedules.len(),
{
    if schedules.len() == 0 {
        0
    } else {
        total_locked(schedules.drop_last(), now) + schedules.last().spec_locked_at(now)
    }
}

/// The sum of what the schedules lock, capped at the largest balance: the
/// amount of the lock that goes with them.
pub open spec fn lock_amount(schedules: Seq<VestingInfo>, now: BlockNumber) -> Balance {
    saturated(total_locked(schedules, now))
}

/// A sum of locked amounts is not negative.
pub proof fn lemma_total_locked_nonnegative(schedules: Seq<VestingInfo>, now: BlockNumber)
    ensures
        0 <= total_locked(schedules, now),
    decreases schedules.len(),
{
    if schedules.len() > 0 {
        lemma_total_locked_nonnegative(schedules.drop_last(), now);
        lemma_locked_at_non_increasing(schedules.last(), now, now);
    }
}

/// One more schedule adds what it locks to the sum, and to the capped sum
/// as a saturating addition does.
pub proof fn lemma_total_locked_push(schedules: Seq<VestingInfo>, schedule: VestingInfo, now: BlockNumber)
    ensures
        total_locked(schedules.push(schedule), now) == total_locked(schedules, now)
            + schedule.spec_locked_at(now),
        lock_amount(schedules.push(schedule), now) == saturated(
            lock_amount(schedules, now) + schedule.spec_locked_at(now),
        ),
{
    assert(schedules.push(schedule).drop_last() == schedules);
    lemma_total_locked_nonnegative(schedules, now);
    lemma_locked_at_non_increasing(schedule, now, now);
}

/// No more schedules stay than there were, each of those that stay still
/// locks something, and the lock that goes with them is zero only where
/// none stays.
pub proof fn lemma_survivors_are_locked(schedules: Seq<VestingInfo>, action: VestingAction, now: BlockNumber)
    ensures
        survivors(schedules, action, now).len() <= schedules.len(),
        forall|k: int|
            0 <= k < survivors(schedules, action, now).len() ==> (#[trigger] survivors(
                schedules,
                action,
                now,
            )[k]).spec_locked_at(now) > 0,
        lock_amount(survivors(schedules, action, now), now) == 0 <==> survivors(
            schedules,
            action,
            now,
        ).len() == 0,
    decreases schedules.len(),
{
    if schedules.len() > 0 {
        let before = survivors(schedules.drop_last(), action, now);
        lemma_survivors_are_locked(schedules.drop_last(), action, now);
        lemma_total_locked_nonnegative(before, now);
        lemma_total_locked_push(before, schedules.last(), now);
        lemma_locked_at_non_increasing(schedules.last(), now, now);
    }
}

/// How many of the first `n` schedules the action takes out.
pub open spec fn taken_out(action: VestingAction, n: int) -> int {
    match action {
        VestingAction::Passive => 0,
        VestingAction::Remove(index1) => if index1 < n {
            1
        } else {
            0
        },
        VestingAction::Merge(index1, index2) => (if index1 < n {
            1int
        } else {
            0int
        }) + (if index2 < n && index2 != index1 {
            1int
        } else {
            0int
        }),
    }
}

/// Each schedule that the action takes out is one schedule less that stays.
pub proof fn lemma_survivors_make_room(schedules: Seq<VestingInfo>, action: VestingAction, now: BlockNumber)
    ensures
        survivors(schedules, action, now).len() + taken_out(action, schedules.len() as int)
            <= schedules.len(),
    decreases schedules.len(),
{
    if schedules.len() > 0 {
        lemma_survivors_make_room(schedules.drop_last(), action, now);
    }
}

/// Under the passive action, schedules that all still lock something stay
/// as they are.
pub proof fn lemma_survivors_keep_locked(schedules: Seq<VestingInfo>, now: BlockNumber)
    requires
        forall|k: int| 0 <= k < schedules.len() ==> (#[trigger] schedules[k]).spec_locked_at(now) > 0,
    ensures
        survivors(schedules, VestingAction::Passive, now) == schedules,
    decreases schedules.len(),
{
    if schedules.len() > 0 {
        lemma_survivors_keep_locked(schedules.drop_last(), now);
        assert(schedules.drop_last().push(schedules.last()) == schedules);
    }
}

impl Pallet {
    /// Brings an account's schedules up to date at block `now`: drops those
    /// that lock nothing any more and those that `action` takes out, and
    /// sums what the others still lock.
    ///
    /// Returns the schedules that stay, in their order, and the amount of
    /// the lock that goes with them.
    pub fn report_schedule_updates(
        schedules: Vec<VestingInfo>,
        action: VestingAction,
        now: BlockNumber,
    ) -> (r: (Vec<VestingInfo>, Balance))
        ensures
            r.0@ == survivors(schedules@, action, now),
            r.1 == lock_amount(r.0@, now),
    {
        let mut kept: Vec<VestingInfo> = Vec::new();
        let mut total_locked_now: Balance = 0;
        let mut index: usize = 0;
        assert(schedules@.take(0) == Seq::<VestingInfo>::empty());
        while index < schedules.len()
            invariant
                index <= schedules.len(),
                kept@ == survivors(schedules@.take(index as int), action, now),
                total_locked_now == lock_amount(kept@, now),
            decreases schedules.len() - index,
        {
            let schedule: VestingInfo = schedules[index];
            let locked_now: Balance = schedule.locked_at(now);
            proof {
                assert(schedules@.take(index + 1).drop_last() == schedules@.take(index as int));
                lemma_total_locked_push(kept@, schedule, now);
            }
            if !(locked_now == 0 || action.should_remove(&index)) {
                total_locked_now = total_locked_now.saturating_add(locked_now);
                kept.push(schedule);
            }
            index += 1;
        }
        assert(schedules@.take(schedules.len() as int) == schedules@);
        (kept, total_locked_now)
    }
}

} // verus!

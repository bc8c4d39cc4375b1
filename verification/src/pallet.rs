use crate::error::Error;
use crate::schedules::{
    lemma_survivors_are_locked, lemma_total_locked_push, lock_amount, survivors, VestingAction,
};
use crate::vesting_info::{Balance, BlockNumber, VestingInfo};
use vstd::prelude::*;

verus! {

/// The limits under which the schedules of an account are kept.
#[derive(Clone, Copy, Debug, PartialEq, Eq)]
pub struct Config {
    /// A vested transfer must lock more than this amount.
    pub min_vested_transfer: Balance,
    /// The largest number of schedules an account may hold.
    pub max_vesting_schedules: u32,
}

/// What an operation reports to the outside.
#[derive(Debug, PartialEq, Eq)]
pub enum Event<A> {
    /// The lock of the account was set to the amount, which is what is left
    /// unvested.
    VestingUpdated(A, Balance),
    /// The account is fully vested and its lock is gone.
    VestingCompleted(A),
    /// Two schedules were merged, and the schedule with the given `locked`,
    /// `per_block` and `starting_block` was added in their place.
    MergedScheduleAdded(Balance, Balance, BlockNumber),
}

/// What is to be written for an account after an operation. The two writes
/// belong together.
#[derive(Debug, PartialEq, Eq)]
pub struct Update<A> {
    /// The schedules to store; `None` where the account's entry is deleted.
    pub vesting: Option<Vec<VestingInfo>>,
    /// The amount to set the lock to; `None` where the lock is removed.
    pub lock: Option<Balance>,
    /// The events to emit, in their order.
    pub events: Vec<Event<A>>,
}

/// The vesting rules under one configuration.
#[derive(Clone, Copy, Debug)]
pub struct Pallet {
    /// The limits in force.
    pub config: Config,
}

/// The lock to write for a locked amount: none for zero.
pub open spec fn lock_for(locked_now: Balance) -> Option<Balance> {
    if locked_now == 0 {
        None
    } else {
        Some(locked_now)
    }
}

/// The event that goes with the write of a lock.
pub open spec fn lock_event<A>(who: A, locked_now: Balance) -> Event<A> {
    if locked_now == 0 {
        Event::VestingCompleted(who)
    } else {
        Event::VestingUpdated(who, locked_now)
    }
}

/// The event that announces a merged schedule, where there is one.
pub open spec fn merge_events<A>(merged: Option<VestingInfo>) -> Seq<Event<A>> {
    match merged {
        None => Seq::empty(),
        Some(m) => seq![Event::MergedScheduleAdded(m.locked, m.per_block, m.starting_block)],
    }
}

/// The schedules that an account's entry holds, as a sequence.
pub open spec fn stored(vesting: Option<Vec<VestingInfo>>) -> Option<Seq<VestingInfo>> {
    match vesting {
        None => None,
        Some(schedules) => Some(schedules@),
    }
}

impl<A> Update<A> {
    /// Whether this is the write of `schedules` for `who` at block `now`:
    /// the entry holds them, or is deleted where there are none; the lock
    /// is the sum of what they lock at `now`, or is removed where that is
    /// zero; and the events are that of the merged schedule, if any,
    /// followed by that of the lock.
    pub open spec fn records(
        self,
        who: A,
        schedules: Seq<VestingInfo>,
        now: BlockNumber,
        merged: Option<VestingInfo>,
    ) -> bool {
        &&& stored(self.vesting) == if schedules.len() == 0 {
            None
        } else {
            Some(schedules)
        }
        &&& self.lock == lock_for(lock_amount(schedules, now))
        &&& self.events@ == merge_events::<A>(merged).push(
            lock_event(who, lock_amount(schedules, now)),
        )
    }
}

/// The schedules that stay when an account's schedules are brought up to
/// date under `action`. `NotVesting` where the account has none,
/// `AtMaxVestingSchedules` where more stay than an account may hold.
pub open spec fn spec_update_schedules(
    max: u32,
    vesting: Option<Seq<VestingInfo>>,
    action: VestingAction,
    now: BlockNumber,
) -> Result<Seq<VestingInfo>, Error> {
    match vesting {
        None => Err(Error::NotVesting),
        Some(schedules) => if survivors(schedules, action, now).len() > max {
            Err(Error::AtMaxVestingSchedules)
        } else {
            Ok(survivors(schedules, action, now))
        },
    }
}

/// The schedules that an account holds once a schedule of the given
/// parameters has been added at block `now`. `Ok(None)` where nothing is
/// to be locked and nothing changes; `AtMaxVestingSchedules` where the
/// account holds as many schedules as it may.
pub open spec fn spec_add_vesting_schedule(
    max: u32,
    vesting: Option<Seq<VestingInfo>>,
    schedule: VestingInfo,
    now: BlockNumber,
) -> Result<Option<Seq<VestingInfo>>, Error> {
    let current = match vesting {
        None => Seq::empty(),
        Some(schedules) => schedules,
    };
    if schedule.locked == 0 {
        Ok(None)
    } else if current.len() >= max {
        Err(Error::AtMaxVestingSchedules)
    } else {
        Ok(Some(survivors(current.push(schedule), VestingAction::Passive, now)))
    }
}

/// The schedule that a vested transfer is to create, judged by itself: it
/// must lock more than the minimum and be valid, and comes back corrected.
pub open spec fn spec_vested_transfer_schedule(config: Config, schedule: VestingInfo) -> Result<
    VestingInfo,
    Error,
> {
    if schedule.locked <= config.min_vested_transfer {
        Err(Error::AmountLow)
    } else if !schedule.is_valid() {
        Err(Error::InvalidScheduleParams)
    } else {
        Ok(schedule.spec_correct())
    }
}

/// The schedule that a vested transfer is to create, once it has passed the
/// checks that come before the funds move: those on the schedule itself,
/// and after them that the target has room for it.
pub open spec fn spec_do_vested_transfer(config: Config, schedule: VestingInfo, target_schedules: nat) -> Result<
    VestingInfo,
    Error,
> {
    match spec_vested_transfer_schedule(config, schedule) {
        Err(e) => Err(e),
        Ok(corrected) => if target_schedules >= config.max_vesting_schedules {
            Err(Error::AtMaxVestingSchedules)
        } else {
            Ok(corrected)
        },
    }
}

/// The lesser of an account's free balance and what its schedules lock at
/// `now`; `None` where it has no schedules.
pub open spec fn spec_vesting_balance(
    vesting: Option<Seq<VestingInfo>>,
    free_balance: Balance,
    now: BlockNumber,
) -> Option<Balance> {
    match vesting {
        None => None,
        Some(schedules) => Some(
            if free_balance <= lock_amount(schedules, now) {
                free_balance
            } else {
                lock_amount(schedules, now)
            },
        ),
    }
}

impl Pallet {
    /// The rules under `config`.
    pub fn new(config: Config) -> (r: Pallet)
        ensures
            r.config == config,
    {
        Pallet { config }
    }

    /// Decides the write of an account's lock: the lock is removed and the
    /// vesting is complete where nothing is locked, else the lock is set to
    /// the amount.
    pub fn write_lock<A>(who: A, total_locked_now: Balance) -> (r: (Option<Balance>, Event<A>))
        ensures
            r.0 == lock_for(total_locked_now),
            r.1 == lock_event(who, total_locked_now),
    {
        if total_locked_now == 0 {
            (None, Event::VestingCompleted(who))
        } else {
            (Some(total_locked_now), Event::VestingUpdated(who, total_locked_now))
        }
    }

    /// Decides the write of an account's schedules: the entry is deleted
    /// where none is left, else it holds the schedules. Fails with
    /// `AtMaxVestingSchedules` where there are more of them than an account
    /// may hold.
    pub fn write_vesting(&self, schedules: Vec<VestingInfo>) -> (r: Result<
        Option<Vec<VestingInfo>>,
        Error,
    >)
        ensures
            match r {
                Err(e) => schedules@.len() > self.config.max_vesting_schedules && e
                    == Error::AtMaxVestingSchedules,
                Ok(entry) => schedules@.len() <= self.config.max_vesting_schedules && stored(entry)
                    == if schedules@.len() == 0 {
                    None
                } else {
                    Some(schedules@)
                },
            },
    {
        if schedules.len() > self.config.max_vesting_schedules as usize {
            Err(Error::AtMaxVestingSchedules)
        } else if schedules.len() == 0 {
            Ok(None)
        } else {
            Ok(Some(schedules))
        }
    }

    /// The two writes for the schedules that stay and the lock that goes
    /// with them, with the event of a merged schedule in front where there
    /// is one.
    pub(crate) fn settle<A>(
        &self,
        who: A,
        schedules: Vec<VestingInfo>,
        locked_now: Balance,
        merged: Option<VestingInfo>,
        Ghost(now): Ghost<BlockNumber>,
    ) -> (r: Result<Update<A>, Error>)
        requires
            locked_now == lock_amount(schedules@, now),
        ensures
            match r {
                Err(e) => schedules@.len() > self.config.max_vesting_schedules && e
                    == Error::AtMaxVestingSchedules,
                Ok(update) => schedules@.len() <= self.config.max_vesting_schedules
                    && update.records(who, schedules@, now, merged),
            },
    {
        let ghost kept = schedules@;
        let vesting: Option<Vec<VestingInfo>> = match self.write_vesting(schedules) {
            Ok(entry) => entry,
            Err(e) => {
                return Err(e);
            },
        };
        let mut events: Vec<Event<A>> = Vec::new();
        match merged {
            Some(schedule) => {
                events.push(
                    Event::MergedScheduleAdded(
                        schedule.locked(),
                        schedule.per_block(),
                        schedule.starting_block(),
                    ),
                );
            },
            None => {},
        }
        let (lock, event) = Self::write_lock(who, locked_now);
        events.push(event);
        Ok(Update { vesting, lock, events })
    }

    /// Releases what has vested of an account's schedules by block `now`.
    ///
    /// Fails with `NotVesting` where the account has no schedules. The
    /// schedules that lock nothing any more are dropped, and the lock is set
    /// to what the others still lock.
    pub fn do_vest<A>(&self, who: A, vesting: Option<Vec<VestingInfo>>, now: BlockNumber) -> (r: Result<
        Update<A>,
        Error,
    >)
        ensures
            match spec_update_schedules(
                self.config.max_vesting_schedules,
                stored(vesting),
                VestingAction::Passive,
                now,
            ) {
                Err(e) => r matches Err(x) && x == e,
                Ok(kept) => r matches Ok(update) && update.records(who, kept, now, None),
            },
    {
        let schedules: Vec<VestingInfo> = match vesting {
            Some(schedules) => schedules,
            None => {
                return Err(Error::NotVesting);
            },
        };
        let (schedules, locked_now) = Self::report_schedule_updates(
            schedules,
            VestingAction::Passive,
            now,
        );
        self.settle(who, schedules, locked_now, None, Ghost(now))
    }

    /// Takes the schedule at `schedule_index` out of an account's schedules
    /// and brings the others up to date at block `now`.
    ///
    /// Fails with `NotVesting` where the account has no schedules. An index
    /// that names no schedule takes none out: it is for the caller to check
    /// it against the schedules just read.
    pub fn remove_vesting_schedule<A>(
        &self,
        who: A,
        vesting: Option<Vec<VestingInfo>>,
        schedule_index: u32,
        now: BlockNumber,
    ) -> (r: Result<Update<A>, Error>)
        ensures
            match spec_update_schedules(
                self.config.max_vesting_schedules,
                stored(vesting),
                VestingAction::Remove(schedule_index as usize),
                now,
            ) {
                Err(e) => r matches Err(x) && x == e,
                Ok(kept) => r matches Ok(update) && update.records(who, kept, now, None),
            },
    {
        let remove_action: VestingAction = VestingAction::Remove(schedule_index as usize);
        let schedules: Vec<VestingInfo> = match vesting {
            Some(schedules) => schedules,
            None => {
                return Err(Error::NotVesting);
            },
        };
        let (schedules, locked_now) = Self::report_schedule_updates(schedules, remove_action, now);
        self.settle(who, schedules, locked_now, None, Ghost(now))
    }

    /// Adds a schedule of the given parameters to an account's schedules
    /// and brings them up to date at block `now`.
    ///
    /// Does nothing where `locked` is zero. Fails with
    /// `AtMaxVestingSchedules`, and changes nothing, where the account
    /// already holds as many schedules as it may. The parameters are taken
    /// as they are: it is for the caller to validate them.
    pub fn add_vesting_schedule<A>(
        &self,
        who: A,
        vesting: Option<Vec<VestingInfo>>,
        locked: Balance,
        per_block: Balance,
        starting_block: BlockNumber,
        now: BlockNumber,
    ) -> (r: Result<Option<Update<A>>, Error>)
        ensures
            match spec_add_vesting_schedule(
                self.config.max_vesting_schedules,
                stored(vesting),
                VestingInfo { locked, per_block, starting_block },
                now,
            ) {
                Err(e) => r matches Err(x) && x == e,
                Ok(None) => r matches Ok(None),
                Ok(Some(kept)) => r matches Ok(Some(update)) && update.records(who, kept, now, None),
            },
    {
        if locked == 0 {
            return Ok(None);
        }
        let vesting_schedule: VestingInfo = VestingInfo::new(locked, per_block, starting_block);
        let mut schedules: Vec<VestingInfo> = match vesting {
            Some(schedules) => schedules,
            None => Vec::new(),
        };
        if schedules.len() >= self.config.max_vesting_schedules as usize {
            return Err(Error::AtMaxVestingSchedules);
        }
        schedules.push(vesting_schedule);
        proof {
            lemma_survivors_are_locked(schedules@, VestingAction::Passive, now);
        }
        let (schedules, locked_now) = Self::report_schedule_updates(
            schedules,
            VestingAction::Passive,
            now,
        );
        match self.settle(who, schedules, locked_now, None, Ghost(now)) {
            Ok(update) => Ok(Some(update)),
            Err(e) => Err(e),
        }
    }

    /// The checks of a vested transfer on the schedule itself, which need
    /// nothing to be known of the accounts.
    ///
    /// Fails with `AmountLow` where the schedule locks no more than the
    /// minimum, and with `InvalidScheduleParams` where it is not valid.
    /// Returns the corrected schedule.
    pub fn vested_transfer_schedule(&self, schedule: VestingInfo) -> (r: Result<VestingInfo, Error>)
        ensures
            r == spec_vested_transfer_schedule(self.config, schedule),
    {
        if !(schedule.locked() > self.config.min_vested_transfer) {
            return Err(Error::AmountLow);
        }
        match schedule.validate() {
            Ok(valid) => Ok(valid.correct()),
            Err(e) => Err(e),
        }
    }

    /// The checks of a vested transfer that come before the funds move.
    ///
    /// `target_schedules` is the number of schedules that the target holds.
    /// Fails as `vested_transfer_schedule` does, and after that with
    /// `AtMaxVestingSchedules` where the target has no room for the
    /// schedule. Returns the corrected schedule: its `locked` is the amount
    /// to transfer, and adding it to the target's schedules afterwards does
    /// not fail.
    pub fn do_vested_transfer(&self, schedule: VestingInfo, target_schedules: usize) -> (r: Result<
        VestingInfo,
        Error,
    >)
        ensures
            r == spec_do_vested_transfer(self.config, schedule, target_schedules as nat),
    {
        let schedule: VestingInfo = match self.vested_transfer_schedule(schedule) {
            Ok(corrected) => corrected,
            Err(e) => {
                return Err(e);
            },
        };
        if !(target_schedules < self.config.max_vesting_schedules as usize) {
            return Err(Error::AtMaxVestingSchedules);
        }
        Ok(schedule)
    }

    /// The amount of an account that is vesting at block `now` and cannot
    /// be spent: what its schedules lock, but no more than its free
    /// balance. `None` where the account has no schedules.
    pub fn vesting_balance(
        vesting: &Option<Vec<VestingInfo>>,
        free_balance: Balance,
        now: BlockNumber,
    ) -> (r: Option<Balance>)
        ensures
            r == spec_vesting_balance(stored(*vesting), free_balance, now),
    {
        match vesting {
            Some(schedules) => {
                let mut total_locked_now: Balance = 0;
                let mut index: usize = 0;
                assert(schedules@.take(0) == Seq::<VestingInfo>::empty());
                while index < schedules.len()
                    invariant
                        index <= schedules.len(),
                        total_locked_now == lock_amount(schedules@.take(index as int), now),
                    decreases schedules.len() - index,
                {
                    let schedule: VestingInfo = schedules[index];
                    proof {
                        assert(schedules@.take(index + 1) == schedules@.take(index as int).push(
                            schedule,
                        ));
                        lemma_total_locked_push(schedules@.take(index as int), schedule, now);
                    }
                    total_locked_now = schedule.locked_at(now).saturating_add(total_locked_now);
                    index += 1;
                }
                assert(schedules@.take(schedules.len() as int) == schedules@);
                Some(
                    if free_balance <= total_locked_now {
                        free_balance
                    } else {
                        total_locked_now
                    },
                )
            },
            None => None,
        }
    }
}

/// Whatever is written for an account, the lock and the schedules agree:
/// where schedules are stored, the lock is set to the sum of what they lock
/// at the block of the write, capped at the largest balance, or removed
/// where that sum is zero; where the entry is deleted, the lock is removed
/// with it.
pub proof fn lemma_lock_matches_schedules<A>(
    update: Update<A>,
    who: A,
    schedules: Seq<VestingInfo>,
    now: BlockNumber,
    merged: Option<VestingInfo>,
)
    requires
        update.records(who, schedules, now, merged),
    ensures
        match update.vesting {
            Some(entry) => entry@.len() > 0 && update.lock == lock_for(lock_amount(entry@, now)),
            None => update.lock is None,
        },
{
}

/// Once a vested transfer has passed its checks, adding the schedule to the
/// target's schedules does not fail and does not leave them unchanged,
/// whatever the block: the funds can move in between.
pub proof fn lemma_add_after_checks_succeeds(
    config: Config,
    schedule: VestingInfo,
    vesting: Option<Seq<VestingInfo>>,
    now: BlockNumber,
)
    requires
        spec_do_vested_transfer(
            config,
            schedule,
            match vesting {
                None => 0,
                Some(schedules) => schedules.len(),
            },
        ) is Ok,
    ensures
        spec_do_vested_transfer(
            config,
            schedule,
            match vesting {
                None => 0,
                Some(schedules) => schedules.len(),
            },
        ) matches Ok(checked) && checked == schedule.spec_correct() && checked.is_valid()
            && spec_add_vesting_schedule(
            config.max_vesting_schedules,
            vesting,
            checked,
            now,
        ) matches Ok(Some(_)),
{
}

/// For an account that holds no more schedules than it may, bringing them
/// up to date never fails for want of room, whatever is taken out.
pub proof fn lemma_update_has_room(
    max: u32,
    vesting: Option<Seq<VestingInfo>>,
    action: VestingAction,
    now: BlockNumber,
)
    requires
        vesting matches Some(schedules) ==> schedules.len() <= max,
    ensures
        spec_update_schedules(max, vesting, action, now) != Err::<Seq<VestingInfo>, Error>(
            Error::AtMaxVestingSchedules,
        ),
{
    if let Some(schedules) = vesting {
        lemma_survivors_are_locked(schedules, action, now);
    }
}

/// Bringing schedules up to date a second time at the same block changes
/// nothing: those that stayed all still lock something.
pub proof fn lemma_update_is_idempotent(schedules: Seq<VestingInfo>, action: VestingAction, now: BlockNumber)
    ensures
        survivors(survivors(schedules, action, now), VestingAction::Passive, now) == survivors(
            schedules,
            action,
            now,
        ),
{
    lemma_survivors_are_locked(schedules, action, now);
    crate::schedules::lemma_survivors_keep_locked(survivors(schedules, action, now), now);
}

} // verus!

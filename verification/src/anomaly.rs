use crate::error::Error;
use crate::merge::{lemma_merge_active_is_valid, spec_merge_vesting_info};
use crate::pallet::{lemma_update_has_room, spec_update_schedules, stored, Pallet};
use crate::schedules::{lemma_survivors_make_room, survivors, VestingAction};
use crate::vesting_info::{BlockNumber, VestingInfo};
use vstd::prelude::*;

verus! {

/// A state that the rules should never reach. An operation that meets one
/// goes on as it is described; the host is to write it to its log.
#[derive(Clone, Copy, Debug, PartialEq, Eq, Structural)]
pub enum Anomaly {
    /// The account holds more schedules than it may.
    TooManySchedules,
    /// There was no room for the merged schedule, though two schedules had
    /// been taken out for it.
    NoRoomForMergedSchedule,
    /// Two schedules that both had not ended locked nothing to merge.
    NothingLockedToMerge,
}

/// What is to be logged when an account's schedules are brought up to date
/// under `action`: that there are too many of them, where the update fails
/// for that reason.
pub open spec fn spec_update_anomaly(
    max: u32,
    vesting: Option<Seq<VestingInfo>>,
    action: VestingAction,
    now: BlockNumber,
) -> Option<Anomaly> {
    if spec_update_schedules(max, vesting, action, now) == Err::<Seq<VestingInfo>, Error>(
        Error::AtMaxVestingSchedules,
    ) {
        Some(Anomaly::TooManySchedules)
    } else {
        None
    }
}

/// What is to be logged when the schedules at two indices of an account are
/// merged, in the order in which it is met. Nothing where the merge does
/// not get as far as merging the two.
pub open spec fn spec_merge_anomalies(
    max: u32,
    vesting: Option<Seq<VestingInfo>>,
    schedule1_index: u32,
    schedule2_index: u32,
    now: BlockNumber,
) -> Seq<Anomaly> {
    match vesting {
        Some(schedules) if schedule1_index != schedule2_index && schedule1_index < schedules.len()
            && schedule2_index < schedules.len() => {
            let schedule1 = schedules[schedule1_index as int];
            let schedule2 = schedules[schedule2_index as int];
            let kept = survivors(
                schedules,
                VestingAction::Merge(schedule1_index as usize, schedule2_index as usize),
                now,
            );
            match spec_merge_vesting_info(now, schedule1, schedule2) {
                Err(_) => Seq::empty(),
                Ok(Some(_)) => if kept.len() >= max {
                    seq![Anomaly::NoRoomForMergedSchedule]
                } else {
                    Seq::empty()
                },
                Ok(None) => {
                    let nothing = if schedule1.spec_ending() > now && schedule2.spec_ending()
                        > now {
                        seq![Anomaly::NothingLockedToMerge]
                    } else {
                        Seq::empty()
                    };
                    if kept.len() > max {
                        nothing.push(Anomaly::TooManySchedules)
                    } else {
                        nothing
                    }
                },
            }
        },
        _ => Seq::empty(),
    }
}

impl Pallet {
    /// What is to be logged when `do_vest` (under the passive action) or
    /// `remove_vesting_schedule` (under the removal of its index) is called
    /// on these schedules at block `now`.
    pub fn update_anomaly(
        &self,
        vesting: Option<Vec<VestingInfo>>,
        action: VestingAction,
        now: BlockNumber,
    ) -> (r: Option<Anomaly>)
        ensures
            r == spec_update_anomaly(self.config.max_vesting_schedules, stored(vesting), action, now),
    {
        match vesting {
            Some(schedules) => {
                let (kept, _) = Self::report_schedule_updates(schedules, action, now);
                if kept.len() > self.config.max_vesting_schedules as usize {
                    Some(Anomaly::TooManySchedules)
                } else {
                    None
                }
            },
            None => None,
        }
    }

    /// What is to be logged when `merge_schedules` is called on these
    /// schedules and indices at block `now`.
    pub fn merge_anomalies(
        &self,
        vesting: Option<Vec<VestingInfo>>,
        schedule1_index: u32,
        schedule2_index: u32,
        now: BlockNumber,
    ) -> (r: Vec<Anomaly>)
        ensures
            r@ == spec_merge_anomalies(
                self.config.max_vesting_schedules,
                stored(vesting),
                schedule1_index,
                schedule2_index,
                now,
            ),
    {
        let mut anomalies: Vec<Anomaly> = Vec::new();
        if schedule1_index == schedule2_index {
            return anomalies;
        }
        let index1: usize = schedule1_index as usize;
        let index2: usize = schedule2_index as usize;
        let schedules: Vec<VestingInfo> = match vesting {
            Some(schedules) => schedules,
            None => {
                return anomalies;
            },
        };
        if index1 >= schedules.len() || index2 >= schedules.len() {
            return anomalies;
        }
        let schedule1: VestingInfo = schedules[index1];
        let schedule2: VestingInfo = schedules[index2];
        let (kept, _) = Self::report_schedule_updates(
            schedules,
            VestingAction::Merge(index1, index2),
            now,
        );
        let max: usize = self.config.max_vesting_schedules as usize;
        match Self::merge_vesting_info(now, schedule1, schedule2) {
            Err(_) => {},
            Ok(Some(_)) => {
                if kept.len() >= max {
                    anomalies.push(Anomaly::NoRoomForMergedSchedule);
                }
            },
            Ok(None) => {
                let running1: bool = match schedule1.ending_block() {
                    Ok(ending) => ending > now,
                    Err(_) => false,
                };
                let running2: bool = match schedule2.ending_block() {
                    Ok(ending) => ending > now,
                    Err(_) => false,
                };
                if running1 && running2 {
                    anomalies.push(Anomaly::NothingLockedToMerge);
                }
                if kept.len() > max {
                    anomalies.push(Anomaly::TooManySchedules);
                }
            },
        }
        anomalies
    }
}

/// Nothing is to be logged of an account that holds no more schedules than
/// it may and whose schedules all have something locked.
pub proof fn lemma_sound_schedules_log_nothing(
    max: u32,
    schedules: Seq<VestingInfo>,
    action: VestingAction,
    schedule1_index: u32,
    schedule2_index: u32,
    now: BlockNumber,
)
    requires
        schedules.len() <= max,
        forall|k: int| 0 <= k < schedules.len() ==> (#[trigger] schedules[k]).locked > 0,
    ensures
        spec_update_anomaly(max, Some(schedules), action, now) is None,
        spec_merge_anomalies(max, Some(schedules), schedule1_index, schedule2_index, now).len()
            == 0,
{
    lemma_update_has_room(max, Some(schedules), action, now);
    if schedule1_index != schedule2_index && schedule1_index < schedules.len() && schedule2_index
        < schedules.len() {
        let schedule1 = schedules[schedule1_index as int];
        let schedule2 = schedules[schedule2_index as int];
        lemma_survivors_make_room(
            schedules,
            VestingAction::Merge(schedule1_index as usize, schedule2_index as usize),
            now,
        );
        if schedule1.spec_ending() > now && schedule2.spec_ending() > now {
            lemma_merge_active_is_valid(now, schedule1, schedule2);
        }
    }
}

} // verus!

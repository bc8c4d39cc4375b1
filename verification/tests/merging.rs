//! The merge of two schedules.

use vesting::{Error, Pallet, VestingInfo};

#[test]
fn merging_a_schedule_with_itself_doubles_it() {
    let s = VestingInfo::new(1280, 64, 10);
    assert_eq!(Pallet::merge_vesting_info(10, s, s), Ok(Some(VestingInfo::new(2560, 128, 10))));
}

#[test]
fn merging_two_ended_schedules_leaves_none() {
    let a = VestingInfo::new(10, 10, 0);
    let b = VestingInfo::new(20, 5, 1);
    assert_eq!(a.ending_block(), Ok(1));
    assert_eq!(b.ending_block(), Ok(5));
    assert_eq!(Pallet::merge_vesting_info(5, a, b), Ok(None));
    assert_eq!(Pallet::merge_vesting_info(6, a, b), Ok(None));
}

#[test]
fn merging_keeps_the_running_schedule_as_it_is() {
    let ended = VestingInfo::new(10, 10, 0);
    let running = VestingInfo::new(20, 5, 1);
    assert_eq!(Pallet::merge_vesting_info(3, ended, running), Ok(Some(running)));
    assert_eq!(Pallet::merge_vesting_info(3, running, ended), Ok(Some(running)));
    // The block at which a schedule ends counts as ended.
    assert_eq!(Pallet::merge_vesting_info(1, ended, running), Ok(Some(running)));
    assert_eq!(Pallet::merge_vesting_info(4, ended, running), Ok(Some(running)));
}

#[test]
fn merging_running_schedules_adds_what_is_left() {
    let a = VestingInfo::new(5120, 256, 10);
    let b = VestingInfo::new(2560, 256, 15);
    // At block 20 there are 2560 and 1280 left; the later end is block 30.
    assert_eq!(Pallet::merge_vesting_info(20, a, b), Ok(Some(VestingInfo::new(3840, 384, 20))));
    // Before either has started, the later start is taken.
    assert_eq!(Pallet::merge_vesting_info(1, a, b), Ok(Some(VestingInfo::new(7680, 512, 15))));
}

#[test]
fn merging_reports_overflow_of_either_end() {
    let fine = VestingInfo::new(100, 1, 0);
    let beyond = VestingInfo::new(10, 1, u64::MAX);
    assert_eq!(Pallet::merge_vesting_info(5, fine, beyond), Err(Error::ArithmeticOverflow));
    assert_eq!(Pallet::merge_vesting_info(5, beyond, fine), Err(Error::ArithmeticOverflow));
    // Also where the other schedule has ended.
    assert_eq!(Pallet::merge_vesting_info(500, fine, beyond), Err(Error::ArithmeticOverflow));
}

#[test]
fn merging_with_no_block_left_releases_all_at_once() {
    // Nothing locked and a late start against a running schedule: the
    // merged schedule starts where it ends.
    let empty = VestingInfo::new(0, 5, 10);
    let running = VestingInfo::new(8, 1, 0);
    assert_eq!(Pallet::merge_vesting_info(3, empty, running), Ok(Some(VestingInfo::new(5, 5, 10))));
}

#[test]
fn merging_schedules_that_lock_nothing_leaves_none() {
    let a = VestingInfo::new(0, 1, 10);
    let b = VestingInfo::new(0, 1, 20);
    assert_eq!(Pallet::merge_vesting_info(5, a, b), Ok(None));
}

#[test]
fn merging_caps_the_locked_amount() {
    let a = VestingInfo::new(u128::MAX, u128::MAX, 10);
    let b = VestingInfo::new(u128::MAX, u128::MAX, 10);
    assert_eq!(
        Pallet::merge_vesting_info(0, a, b),
        Ok(Some(VestingInfo::new(u128::MAX, u128::MAX, 10)))
    );
}

#[test]
fn merging_does_not_depend_on_the_order() {
    let schedules = vec![
        VestingInfo::new(1280, 128, 0),
        VestingInfo::new(1280, 64, 10),
        VestingInfo::new(256, 250, 10),
        VestingInfo::new(256, 0, 1),
        VestingInfo::new(0, 1, 20),
        VestingInfo::new(7, 3, 25),
        VestingInfo::new(10, 1, u64::MAX),
    ];
    for a in &schedules {
        for b in &schedules {
            for now in [0u64, 5, 10, 11, 20, 27, 30, 300] {
                assert_eq!(
                    Pallet::merge_vesting_info(now, *a, *b),
                    Pallet::merge_vesting_info(now, *b, *a),
                    "{:?} {:?} at {}",
                    a,
                    b,
                    now
                );
            }
        }
    }
}

#[test]
fn merged_schedule_is_valid_and_locks_the_sum() {
    let schedules = vec![
        VestingInfo::new(1280, 128, 0),
        VestingInfo::new(1280, 64, 10),
        VestingInfo::new(256, 250, 10),
        VestingInfo::new(256, 0, 1),
        VestingInfo::new(7, 3, 25),
    ];
    for a in &schedules {
        for b in &schedules {
            for now in [0u64, 5, 9, 11, 20, 27] {
                let both_run =
                    a.ending_block().unwrap() > now && b.ending_block().unwrap() > now;
                if let (true, Ok(Some(m))) = (both_run, Pallet::merge_vesting_info(now, *a, *b)) {
                    assert_eq!(m.locked(), a.locked_at(now) + b.locked_at(now));
                    assert_eq!(m.locked_at(now), m.locked());
                    assert!(m.starting_block() >= now);
                    assert!(1 <= m.per_block() && m.per_block() <= m.locked());
                    assert_eq!(m.validate(), Ok(m));
                }
            }
        }
    }
}

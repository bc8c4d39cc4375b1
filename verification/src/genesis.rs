use crate::schedules::{lemma_total_locked_push, lock_amount};
use crate::vesting_info::{Balance, BlockNumber, VestingInfo};
use vstd::prelude::*;

verus! {

/// The schedules that accounts start out with. Each entry names an account,
/// the block at which its vesting begins, the number of blocks it takes, and
/// the part of the account's balance that is free from the start.
pub struct GenesisConfig<A> {
    /// The entries, as `(who, begin, length, liquid)`.
    pub vesting: Vec<(A, BlockNumber, BlockNumber, Balance)>,
}

/// The schedule of an account that starts out with `balance`, of which
/// `liquid` is free: the rest is locked and released evenly over `length`
/// blocks from `begin` on. A length of zero counts as one.
pub open spec fn genesis_schedule(
    balance: Balance,
    begin: BlockNumber,
    length: BlockNumber,
    liquid: Balance,
) -> VestingInfo {
    let locked: Balance = if balance >= liquid {
        (balance - liquid) as Balance
    } else {
        0
    };
    let blocks: Balance = if length == 0 {
        1
    } else {
        length as Balance
    };
    VestingInfo { locked, per_block: locked / blocks, starting_block: begin }
}

impl<A> Default for GenesisConfig<A> {
    /// No schedules.
    fn default() -> (r: Self)
        ensures
            r.vesting@.len() == 0,
    {
        GenesisConfig { vesting: Vec::new() }
    }
}

impl<A> GenesisConfig<A> {
    /// The schedule of the entry at `i`, for accounts with the given
    /// balances, one balance for each entry.
    pub open spec fn entry_schedule(self, balances: Seq<Balance>, i: int) -> VestingInfo {
        genesis_schedule(balances[i], self.vesting@[i].1, self.vesting@[i].2, self.vesting@[i].3)
    }

    /// The schedules of the first `upto` entries that belong to `account`,
    /// in the order of the entries. An account is known by the index of the
    /// first entry that names it, and `same_as` holds that index for each
    /// entry.
    pub open spec fn shared_schedules(
        self,
        balances: Seq<Balance>,
        same_as: Seq<usize>,
        account: usize,
        upto: int,
    ) -> Seq<VestingInfo>
        decreases upto,
    {
        if upto <= 0 {
            Seq::empty()
        } else {
            let before = self.shared_schedules(balances, same_as, account, upto - 1);
            if same_as[upto - 1] == account {
                before.push(self.entry_schedule(balances, upto - 1))
            } else {
                before
            }
        }
    }

    /// The schedules that the account of the entry at `i` holds once the
    /// entries up to and including `i` have been stored.
    pub open spec fn account_schedules(self, balances: Seq<Balance>, same_as: Seq<usize>, i: int) -> Seq<
        VestingInfo,
    > {
        self.shared_schedules(balances, same_as, same_as[i], i + 1)
    }

    /// Whether the entry at `i` can be built: `same_as` names an entry that
    /// does not come later and stands for itself, the account has a
    /// balance, the schedule is valid, and with it the account holds no
    /// more than `max` schedules.
    pub open spec fn entry_buildable(
        self,
        balances: Seq<Balance>,
        same_as: Seq<usize>,
        max: u32,
        i: int,
    ) -> bool {
        &&& same_as[i] <= i
        &&& same_as[same_as[i] as int] == same_as[i]
        &&& balances[i] != 0
        &&& self.entry_schedule(balances, i).is_valid()
        &&& self.account_schedules(balances, same_as, i).len() <= max
    }

    /// Whether the schedules can be built. `balances` holds the free
    /// balance of the account of each entry, and `same_as` the index of the
    /// first entry that names the same account, both in the order of the
    /// entries; `max` is the largest number of schedules an account may
    /// hold. Each account must have a balance, each schedule must be valid,
    /// and no account may be named by more than `max` entries.
    pub open spec fn buildable(self, balances: Seq<Balance>, same_as: Seq<usize>, max: u32) -> bool {
        &&& balances.len() == self.vesting@.len()
        &&& same_as.len() == self.vesting@.len()
        &&& forall|i: int|
            0 <= i < self.vesting@.len() ==> #[trigger] self.entry_buildable(
                balances,
                same_as,
                max,
                i,
            )
    }

    /// The schedule of one entry.
    pub fn schedule(balance: Balance, begin: BlockNumber, length: BlockNumber, liquid: Balance) -> (r:
        VestingInfo)
        ensures
            r == genesis_schedule(balance, begin, length, liquid),
    {
        let locked: Balance = balance.saturating_sub(liquid);
        let length_as_balance: Balance = length as Balance;
        let blocks: Balance = if length_as_balance < 1 {
            1
        } else {
            length_as_balance
        };
        let per_block: Balance = locked / blocks;
        VestingInfo::new(locked, per_block, begin)
    }

    /// How many schedules the account of the entry at `index` holds once
    /// the entries up to and including it have been stored, and what they
    /// lock together at the first block.
    fn account_lock(&self, balances: &Vec<Balance>, same_as: &Vec<usize>, index: usize) -> (r: (
        usize,
        Balance,
    ))
        requires
            balances.len() == self.vesting.len(),
            same_as.len() == self.vesting.len(),
            index < self.vesting.len(),
        ensures
            r.0 == self.account_schedules(balances@, same_as@, index as int).len(),
            r.1 == lock_amount(self.account_schedules(balances@, same_as@, index as int), 0),
    {
        let account: usize = same_as[index];
        let mut count: usize = 0;
        let mut lock: Balance = 0;
        let mut other: usize = 0;
        while other <= index
            invariant
                other <= index + 1,
                index < self.vesting.len(),
                balances.len() == self.vesting.len(),
                same_as.len() == self.vesting.len(),
                count <= other,
                count == self.shared_schedules(balances@, same_as@, account, other as int).len(),
                lock == lock_amount(
                    self.shared_schedules(balances@, same_as@, account, other as int),
                    0,
                ),
            decreases index + 1 - other,
        {
            if same_as[other] == account {
                let entry = &self.vesting[other];
                let schedule: VestingInfo = Self::schedule(
                    balances[other],
                    entry.1,
                    entry.2,
                    entry.3,
                );
                proof {
                    lemma_total_locked_push(
                        self.shared_schedules(balances@, same_as@, account, other as int),
                        schedule,
                        0,
                    );
                }
                lock = lock.saturating_add(schedule.locked_at(0));
                count += 1;
            }
            other += 1;
        }
        (count, lock)
    }

    /// Whether `build` can be called with these values.
    pub fn is_buildable(&self, balances: &Vec<Balance>, same_as: &Vec<usize>, max: u32) -> (r: bool)
        ensures
            r == self.buildable(balances@, same_as@, max),
    {
        if balances.len() != self.vesting.len() || same_as.len() != self.vesting.len() {
            return false;
        }
        let mut index: usize = 0;
        while index < self.vesting.len()
            invariant
                index <= self.vesting.len(),
                balances.len() == self.vesting.len(),
                same_as.len() == self.vesting.len(),
                forall|i: int|
                    0 <= i < index ==> #[trigger] self.entry_buildable(balances@, same_as@, max, i),
            decreases self.vesting.len() - index,
        {
            let first: usize = same_as[index];
            if first > index {
                assert(!self.entry_buildable(balances@, same_as@, max, index as int));
                return false;
            }
            if same_as[first] != first {
                assert(!self.entry_buildable(balances@, same_as@, max, index as int));
                return false;
            }
            let entry = &self.vesting[index];
            let balance: Balance = balances[index];
            let schedule: VestingInfo = Self::schedule(balance, entry.1, entry.2, entry.3);
            assert(schedule == self.entry_schedule(balances@, index as int));
            if balance == 0 {
                assert(!self.entry_buildable(balances@, same_as@, max, index as int));
                return false;
            }
            match schedule.validate() {
                Ok(_) => {},
                Err(_) => {
                    assert(!self.entry_buildable(balances@, same_as@, max, index as int));
                    return false;
                },
            }
            let (held, _) = self.account_lock(balances, same_as, index);
            if held > max as usize {
                assert(!self.entry_buildable(balances@, same_as@, max, index as int));
                return false;
            }
            index += 1;
        }
        true
    }

    /// The schedules with which the accounts start out, one for each entry
    /// and in the order of the entries, each with the lock of its account
    /// once it has been stored: the sum of what the account's schedules so
    /// far lock at the first block. Storing the schedules and setting the
    /// locks in this order leaves each account with the sum over all of its
    /// schedules.
    pub fn build(&self, balances: &Vec<Balance>, same_as: &Vec<usize>, max: u32) -> (r: Vec<
        (VestingInfo, Balance),
    >)
        requires
            self.buildable(balances@, same_as@, max),
        ensures
            r@.len() == self.vesting@.len(),
            forall|i: int| 0 <= i < r@.len() ==> r@[i].0 == self.entry_schedule(balances@, i),
            forall|i: int|
                0 <= i < r@.len() ==> r@[i].1 == lock_amount(
                    self.account_schedules(balances@, same_as@, i),
                    0,
                ),
            forall|i: int| 0 <= i < r@.len() ==> (#[trigger] r@[i]).0.is_valid(),
            forall|i: int|
                0 <= i < r@.len() ==> {
                    let held = #[trigger] self.account_schedules(balances@, same_as@, i);
                    0 < held.len() <= max
                },
    {
        let mut built: Vec<(VestingInfo, Balance)> = Vec::new();
        let mut index: usize = 0;
        while index < self.vesting.len()
            invariant
                index <= self.vesting.len(),
                self.buildable(balances@, same_as@, max),
                built@.len() == index,
                forall|i: int| 0 <= i < index ==> built@[i].0 == self.entry_schedule(balances@, i),
                forall|i: int|
                    0 <= i < index ==> built@[i].1 == lock_amount(
                        self.account_schedules(balances@, same_as@, i),
                        0,
                    ),
            decreases self.vesting.len() - index,
        {
            let entry = &self.vesting[index];
            let schedule: VestingInfo = Self::schedule(balances[index], entry.1, entry.2, entry.3);
            let (_, lock) = self.account_lock(balances, same_as, index);
            built.push((schedule, lock));
            index += 1;
        }
        assert forall|i: int| 0 <= i < built@.len() implies (#[trigger] built@[i]).0.is_valid() by {
            assert(self.entry_buildable(balances@, same_as@, max, i));
        }
        assert forall|i: int| 0 <= i < built@.len() implies {
            let held = #[trigger] self.account_schedules(balances@, same_as@, i);
            0 < held.len() <= max
        } by {
            assert(self.entry_buildable(balances@, same_as@, max, i));
        }
        built
    }
}

} // verus!

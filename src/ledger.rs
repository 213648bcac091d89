use vstd::prelude::*;

use crate::errors::StakingError;
use crate::reward::{accrual, checked_reward, lemma_accrual_nonneg};
use crate::state::{NftStakeAccount, NftStaked, tiers_distinct};

verus! {

/// The reward that all tier buckets earned between `last_claimed` and `now`.
pub open spec fn pending(tiers: Seq<NftStaked>, reward_rate: u64, last_claimed: i64, now: i64) -> int
    decreases tiers.len(),
{
    if tiers.len() == 0 {
        0
    } else {
        pending(tiers.drop_last(), reward_rate, last_claimed, now) + accrual(
            reward_rate,
            tiers.last().num_staked,
            tiers.last().locking_period,
            last_claimed,
            now,
        )
    }
}

/// The later of two timestamps: settlement never moves `last_claimed` back.
pub open spec fn later(a: i64, b: i64) -> i64 {
    if a < b {
        b
    } else {
        a
    }
}

/// The balance that settling at `now` leaves.
pub open spec fn settled_reward(acct: NftStakeAccount, reward_rate: u64, now: i64) -> int {
    acct.claimed_reward + pending(acct.nfts_staked@, reward_rate, acct.last_claimed, now)
}

proof fn lemma_pending_prefix(tiers: Seq<NftStaked>, reward_rate: u64, last_claimed: i64, now: i64, i: int, j: int)
    requires
        0 <= i <= j <= tiers.len(),
    ensures
        0 <= pending(tiers.take(i), reward_rate, last_claimed, now) <= pending(tiers.take(j), reward_rate, last_claimed, now),
    decreases j,
{
    if j > 0 {
        assert(tiers.take(j).drop_last() =~= tiers.take(j - 1));
        let t = tiers.take(j).last();
        lemma_accrual_nonneg(reward_rate, t.num_staked, t.locking_period, last_claimed, now);
        if i < j {
            lemma_pending_prefix(tiers, reward_rate, last_claimed, now, i, j - 1);
        } else {
            lemma_pending_prefix(tiers, reward_rate, last_claimed, now, j - 1, j - 1);
        }
    } else {
        assert(tiers.take(0) =~= Seq::<NftStaked>::empty());
    }
}

pub proof fn lemma_pending_nonneg(tiers: Seq<NftStaked>, reward_rate: u64, last_claimed: i64, now: i64)
    ensures
        pending(tiers, reward_rate, last_claimed, now) >= 0,
{
    lemma_pending_prefix(tiers, reward_rate, last_claimed, now, tiers.len() as int, tiers.len() as int);
    assert(tiers.take(tiers.len() as int) =~= tiers);
}

/// Nothing is pending at or before the last settlement.
pub proof fn lemma_nothing_pending_before(tiers: Seq<NftStaked>, reward_rate: u64, last_claimed: i64, now: i64)
    requires
        now <= last_claimed,
    ensures
        pending(tiers, reward_rate, last_claimed, now) == 0,
    decreases tiers.len(),
{
    if tiers.len() > 0 {
        lemma_nothing_pending_before(tiers.drop_last(), reward_rate, last_claimed, now);
    }
}

/// `start` plus the pending reward of `tiers`, or `None` when that exceeds `u64::MAX`.
fn add_pending(tiers: &Vec<NftStaked>, reward_rate: u64, last_claimed: i64, now: i64, start: u64) -> (r: Option<u64>)
    ensures
        ({
            let total = start + pending(tiers@, reward_rate, last_claimed, now);
            r == if total <= u64::MAX {
                Some(total as u64)
            } else {
                None::<u64>
            }
        }),
{
    let n = tiers.len();
    let mut sum: u64 = start;
    let mut i: usize = 0;
    while i < n
        invariant
            n == tiers@.len(),
            0 <= i <= n,
            sum == start + pending(tiers@.take(i as int), reward_rate, last_claimed, now),
        decreases n - i,
    {
        let t = tiers[i];
        proof {
            assert(tiers@.take(i + 1).drop_last() =~= tiers@.take(i as int));
            assert(tiers@.take(i + 1).last() == t);
            lemma_pending_prefix(tiers@, reward_rate, last_claimed, now, i + 1, n as int);
            assert(tiers@.take(n as int) =~= tiers@);
        }
        match checked_reward(reward_rate, t.num_staked, t.locking_period, last_claimed, now) {
            None => {
                proof {
                    lemma_pending_prefix(tiers@, reward_rate, last_claimed, now, i as int, i as int);
                }
                return None;
            },
            Some(a) => {
                if a > u64::MAX - sum {
                    return None;
                }
                sum = sum + a;
            },
        }
        i = i + 1;
    }
    proof {
        assert(tiers@.take(n as int) =~= tiers@);
    }
    Some(sum)
}

/// Folds the reward pending since `last_claimed` into `claimed_reward` and
/// moves `last_claimed` up to `now`; refused, with nothing changed, when the
/// balance would overflow.
pub fn settle(stake_account: &mut NftStakeAccount, reward_rate: u64, now: i64) -> (r: Result<(), StakingError>)
    ensures
        settled_reward(*old(stake_account), reward_rate, now) <= u64::MAX ==> {
            &&& r is Ok
            &&& final(stake_account).claimed_reward == settled_reward(*old(stake_account), reward_rate, now)
            &&& final(stake_account).last_claimed == later(old(stake_account).last_claimed, now)
            &&& final(stake_account).nfts_staked == old(stake_account).nfts_staked
            &&& final(stake_account).owner == old(stake_account).owner
            &&& final(stake_account).rewarder == old(stake_account).rewarder
            &&& final(stake_account).bump == old(stake_account).bump
        },
        settled_reward(*old(stake_account), reward_rate, now) > u64::MAX ==> {
            &&& r == Err::<(), StakingError>(StakingError::ArithmeticOverflow)
            &&& *final(stake_account) == *old(stake_account)
        },
{
    proof {
        lemma_pending_nonneg(stake_account.nfts_staked@, reward_rate, stake_account.last_claimed, now);
    }
    match add_pending(&stake_account.nfts_staked, reward_rate, stake_account.last_claimed, now, stake_account.claimed_reward) {
        None => Err(StakingError::ArithmeticOverflow),
        Some(total) => {
            stake_account.claimed_reward = total;
            if stake_account.last_claimed < now {
                stake_account.last_claimed = now;
            }
            Ok(())
        },
    }
}

/// One more asset in the bucket of a locking period.
pub open spec fn tier_incremented(t: NftStaked, locking_period: i64) -> NftStaked {
    if t.locking_period == locking_period {
        NftStaked { locking_period: t.locking_period, num_staked: (t.num_staked + 1) as u16 }
    } else {
        t
    }
}

/// One asset fewer in the bucket of a locking period, never below zero.
pub open spec fn tier_decremented(t: NftStaked, locking_period: i64) -> NftStaked {
    if t.locking_period == locking_period && t.num_staked > 0 {
        NftStaked { locking_period: t.locking_period, num_staked: (t.num_staked - 1) as u16 }
    } else {
        t
    }
}

/// Whether some bucket is for `locking_period`.
pub open spec fn has_tier(tiers: Seq<NftStaked>, locking_period: i64) -> bool {
    exists|i: int| 0 <= i < tiers.len() && tiers[i].locking_period == locking_period
}

/// Whether the bucket of `locking_period` cannot take one more asset.
pub open spec fn tier_full(tiers: Seq<NftStaked>, locking_period: i64) -> bool {
    exists|i: int|
        0 <= i < tiers.len() && tiers[i].locking_period == locking_period && tiers[i].num_staked
            == u16::MAX
}

/// The buckets after a deposit: the matching bucket counts one more, or a new
/// bucket holding one asset is appended.
pub open spec fn tiers_after_deposit(tiers: Seq<NftStaked>, locking_period: i64) -> Seq<NftStaked> {
    if has_tier(tiers, locking_period) {
        tiers.map_values(|t: NftStaked| tier_incremented(t, locking_period))
    } else {
        tiers.push(NftStaked { locking_period, num_staked: 1 })
    }
}

/// The buckets after a withdrawal: the matching bucket counts one fewer,
/// saturating at zero.
pub open spec fn tiers_after_withdraw(tiers: Seq<NftStaked>, locking_period: i64) -> Seq<NftStaked> {
    tiers.map_values(|t: NftStaked| tier_decremented(t, locking_period))
}

/// Whether the bucket of `locking_period` is at its largest count.
pub(crate) fn tier_is_full(tiers: &Vec<NftStaked>, locking_period: i64) -> (r: bool)
    ensures
        r == tier_full(tiers@, locking_period),
{
    let mut i: usize = 0;
    while i < tiers.len()
        invariant
            0 <= i <= tiers@.len(),
            forall|j: int|
                0 <= j < i ==> !(tiers@[j].locking_period == locking_period && tiers@[j].num_staked
                    == u16::MAX),
        decreases tiers@.len() - i,
    {
        if tiers[i].locking_period == locking_period && tiers[i].num_staked == u16::MAX {
            return true;
        }
        i = i + 1;
    }
    false
}

/// Counts one more asset in the bucket of `locking_period`.
pub(crate) fn add_to_tier(tiers: &mut Vec<NftStaked>, locking_period: i64)
    requires
        !tier_full(old(tiers)@, locking_period),
        tiers_distinct(old(tiers)@),
    ensures
        final(tiers)@ == tiers_after_deposit(old(tiers)@, locking_period),
        tiers_distinct(final(tiers)@),
{
    let ghost pre = tiers@;
    let mut found = false;
    let mut i: usize = 0;
    while i < tiers.len()
        invariant
            0 <= i <= tiers@.len(),
            tiers@.len() == pre.len(),
            !tier_full(pre, locking_period),
            forall|j: int| 0 <= j < i ==> tiers@[j] == tier_incremented(pre[j], locking_period),
            forall|j: int| i <= j < tiers@.len() ==> tiers@[j] == pre[j],
            found == exists|j: int| 0 <= j < i && pre[j].locking_period == locking_period,
        decreases tiers@.len() - i,
    {
        let t = tiers[i];
        if t.locking_period == locking_period {
            assert(pre[i as int].num_staked != u16::MAX);
            tiers[i] = NftStaked { locking_period: t.locking_period, num_staked: t.num_staked + 1 };
            found = true;
        }
        i = i + 1;
    }
    if !found {
        tiers.push(NftStaked { locking_period, num_staked: 1 });
        assert(tiers@ =~= tiers_after_deposit(pre, locking_period));
    } else {
        assert(tiers@ =~= tiers_after_deposit(pre, locking_period));
    }
}

/// Counts one asset fewer in the bucket of `locking_period`, never below zero.
pub(crate) fn remove_from_tier(tiers: &mut Vec<NftStaked>, locking_period: i64)
    requires
        tiers_distinct(old(tiers)@),
    ensures
        final(tiers)@ == tiers_after_withdraw(old(tiers)@, locking_period),
        tiers_distinct(final(tiers)@),
{
    let ghost pre = tiers@;
    let mut i: usize = 0;
    while i < tiers.len()
        invariant
            0 <= i <= tiers@.len(),
            tiers@.len() == pre.len(),
            forall|j: int| 0 <= j < i ==> tiers@[j] == tier_decremented(pre[j], locking_period),
            forall|j: int| i <= j < tiers@.len() ==> tiers@[j] == pre[j],
        decreases tiers@.len() - i,
    {
        let t = tiers[i];
        if t.locking_period == locking_period && t.num_staked > 0 {
            tiers[i] = NftStaked { locking_period: t.locking_period, num_staked: t.num_staked - 1 };
        }
        i = i + 1;
    }
    assert(tiers@ =~= tiers_after_withdraw(pre, locking_period));
}

} // verus!

use vstd::prelude::*;

verus! {

/// Seconds in one day: the reward rate is given per staked asset per day.
pub const SECONDS_PER_DAY: i64 = 86400;

/// Whether a locking period stands for a lock of `days` days. A tier is
/// recognised both when written in seconds (`days * SECONDS_PER_DAY`, the
/// length that the release check counts) and when written as the bare day
/// count (`7` for the seven-day tier); the two sets of values are disjoint.
pub open spec fn is_tier(locking_period: int, days: int) -> bool {
    locking_period == days || locking_period == days * (SECONDS_PER_DAY as int)
}

/// The base amount scaled by the lock-duration multiplier (exact matches only).
pub open spec fn lock_scaled(amount: int, locking_period: int) -> int {
    if is_tier(locking_period, 7) {
        amount * 125 / 100
    } else if is_tier(locking_period, 30) {
        amount * 150 / 100
    } else if is_tier(locking_period, 60) {
        amount * 175 / 100
    } else if is_tier(locking_period, 90) {
        amount * 2
    } else {
        amount
    }
}

/// An amount scaled by the bonus of the bucket that `num_staked` falls in.
pub open spec fn count_scaled(amount: int, num_staked: int) -> int {
    if num_staked < 5 {
        amount
    } else if num_staked < 10 {
        amount * 125 / 100
    } else if num_staked < 15 {
        amount * 150 / 100
    } else if num_staked < 20 {
        amount * 175 / 100
    } else {
        amount * 2
    }
}

/// The reward earned between `last_claimed` and `now` by `num_staked` assets
/// locked for `locking_period`: the floored daily-rate share, then the lock
/// multiplier, then the count multiplier, each truncated.
pub open spec fn reward_spec(
    reward_rate: int,
    num_staked: int,
    locking_period: int,
    last_claimed: int,
    now: int,
) -> int {
    if num_staked == 0 || now <= last_claimed {
        0
    } else {
        count_scaled(
            lock_scaled(
                reward_rate * (now - last_claimed) * num_staked / (SECONDS_PER_DAY as int),
                locking_period,
            ),
            num_staked,
        )
    }
}

/// The reward of one tier bucket.
pub open spec fn accrual(
    reward_rate: u64,
    num_staked: u16,
    locking_period: i64,
    last_claimed: i64,
    now: i64,
) -> int {
    reward_spec(
        reward_rate as int,
        num_staked as int,
        locking_period as int,
        last_claimed as int,
        now as int,
    )
}

proof fn lemma_scaling_grows(amount: int, locking_period: int, num_staked: int)
    requires
        amount >= 0,
    ensures
        amount <= lock_scaled(amount, locking_period),
        lock_scaled(amount, locking_period) <= count_scaled(
            lock_scaled(amount, locking_period),
            num_staked,
        ),
{
    assert(amount <= amount * 125 / 100) by (nonlinear_arith)
        requires amount >= 0;
    assert(amount <= amount * 150 / 100) by (nonlinear_arith)
        requires amount >= 0;
    assert(amount <= amount * 175 / 100) by (nonlinear_arith)
        requires amount >= 0;
    let l = lock_scaled(amount, locking_period);
    assert(l <= l * 125 / 100) by (nonlinear_arith)
        requires l >= 0;
    assert(l <= l * 150 / 100) by (nonlinear_arith)
        requires l >= 0;
    assert(l <= l * 175 / 100) by (nonlinear_arith)
        requires l >= 0;
}

/// Nothing accrues while nothing is staked, whatever the other inputs.
pub proof fn lemma_no_stake_no_reward(
    reward_rate: int,
    locking_period: int,
    last_claimed: int,
    now: int,
)
    ensures
        reward_spec(reward_rate, 0, locking_period, last_claimed, now) == 0,
{
}

/// Nothing accrues unless time has moved past the last settlement.
pub proof fn lemma_no_time_no_reward(
    reward_rate: int,
    num_staked: int,
    locking_period: int,
    last_claimed: int,
    now: int,
)
    requires
        now <= last_claimed,
    ensures
        reward_spec(reward_rate, num_staked, locking_period, last_claimed, now) == 0,
{
}

/// A reward is never negative.
pub proof fn lemma_accrual_nonneg(
    reward_rate: u64,
    num_staked: u16,
    locking_period: i64,
    last_claimed: i64,
    now: i64,
)
    ensures
        accrual(reward_rate, num_staked, locking_period, last_claimed, now) >= 0,
{
    if num_staked != 0 && now > last_claimed {
        let base = (reward_rate as int) * (now - last_claimed) * (num_staked as int) / 86400;
        assert(base >= 0) by (nonlinear_arith)
            requires
                reward_rate >= 0,
                now - last_claimed > 0,
                num_staked >= 0,
                base == (reward_rate as int) * (now - last_claimed) * (num_staked as int) / 86400,
        ;
        lemma_scaling_grows(base, locking_period as int, num_staked as int);
    }
}

/// The lock-duration multiplier on an amount that fits in 64 bits.
fn scale_by_lock(amount: u128, locking_period: i64) -> (r: u128)
    requires
        amount <= u64::MAX,
    ensures
        r == lock_scaled(amount as int, locking_period as int),
{
    if locking_period == 7 || locking_period == 7 * SECONDS_PER_DAY {
        amount * 125 / 100
    } else if locking_period == 30 || locking_period == 30 * SECONDS_PER_DAY {
        amount * 150 / 100
    } else if locking_period == 60 || locking_period == 60 * SECONDS_PER_DAY {
        amount * 175 / 100
    } else if locking_period == 90 || locking_period == 90 * SECONDS_PER_DAY {
        amount * 2
    } else {
        amount
    }
}

/// The count-bucket multiplier on an amount below 2^66.
fn scale_by_count(amount: u128, num_staked: u16) -> (r: u128)
    requires
        amount <= 4 * (u64::MAX as int),
    ensures
        r == count_scaled(amount as int, num_staked as int),
{
    if num_staked < 5 {
        amount
    } else if num_staked < 10 {
        amount * 125 / 100
    } else if num_staked < 15 {
        amount * 150 / 100
    } else if num_staked < 20 {
        amount * 175 / 100
    } else {
        amount * 2
    }
}

/// The reward for one tier bucket; `None` exactly when it exceeds `u64::MAX`.
pub fn checked_reward(
    reward_rate: u64,
    num_staked: u16,
    locking_period: i64,
    last_claimed: i64,
    current_time: i64,
) -> (r: Option<u64>)
    ensures
        r == if accrual(reward_rate, num_staked, locking_period, last_claimed, current_time)
            <= u64::MAX {
            Some(accrual(reward_rate, num_staked, locking_period, last_claimed, current_time) as u64)
        } else {
            None::<u64>
        },
{
    if num_staked == 0 || current_time <= last_claimed {
        return Some(0);
    }
    let elapsed: u128 = ((current_time as i128) - (last_claimed as i128)) as u128;
    let rate: u128 = reward_rate as u128;
    let count: u128 = num_staked as u128;
    assert(rate * elapsed <= u128::MAX) by (nonlinear_arith)
        requires
            rate <= u64::MAX,
            elapsed <= u64::MAX,
    ;
    let per_asset: u128 = rate * elapsed;
    let ghost v = reward_spec(
        reward_rate as int,
        num_staked as int,
        locking_period as int,
        last_claimed as int,
        current_time as int,
    );
    let ghost base = per_asset * count / (SECONDS_PER_DAY as int);
    proof {
        assert(base >= 0) by (nonlinear_arith)
            requires
                per_asset >= 0,
                count >= 0,
                base == per_asset * count / 86400,
        ;
        lemma_scaling_grows(base, locking_period as int, num_staked as int);
    }
    if per_asset > u128::MAX / count {
        proof {
            assert(per_asset * count > u128::MAX) by (nonlinear_arith)
                requires
                    per_asset > u128::MAX / count,
                    count >= 1,
            ;
            assert(base > u64::MAX) by (nonlinear_arith)
                requires
                    per_asset * count > u128::MAX,
                    base == per_asset * count / 86400,
            ;
        }
        return None;
    }
    assert(per_asset * count <= u128::MAX) by (nonlinear_arith)
        requires
            per_asset <= u128::MAX / count,
            count >= 1,
    ;
    let base_amount: u128 = per_asset * count / 86400;
    if base_amount > u64::MAX as u128 {
        return None;
    }
    let locked: u128 = scale_by_lock(base_amount, locking_period);
    assert(locked <= 2 * (u64::MAX as int)) by (nonlinear_arith)
        requires
            base_amount <= u64::MAX,
            locked == lock_scaled(base_amount as int, locking_period as int),
    ;
    let total: u128 = scale_by_count(locked, num_staked);
    if total > u64::MAX as u128 {
        None
    } else {
        Some(total as u64)
    }
}

/// The reward earned by `num_staked` assets locked for `locking_period`
/// between `last_claimed` and `current_time`.
pub fn calculate_reward(
    reward_rate: u64,
    num_staked: u16,
    locking_period: i64,
    last_claimed: i64,
    current_time: i64,
) -> (r: u64)
    requires
        accrual(reward_rate, num_staked, locking_period, last_claimed, current_time) <= u64::MAX,
    ensures
        r == accrual(reward_rate, num_staked, locking_period, last_claimed, current_time),
{
    match checked_reward(reward_rate, num_staked, locking_period, last_claimed, current_time) {
        Some(v) => v,
        None => 0,
    }
}

} // verus!

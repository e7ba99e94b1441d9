//! The linear accrual formula: staked amount scaled by elapsed time, in
//! units of one thirty-day month, capped by the pool's fixed total budget.

use vstd::prelude::*;
use vstd::arithmetic::div_mod::lemma_div_pos_is_pos;
use vstd::arithmetic::mul::{lemma_mul_nonnegative, lemma_mul_upper_bound};

verus! {

/// Seconds in the thirty-day month over which one full principal accrues.
pub const SECONDS_PER_MONTH: u64 = 30 * 24 * 60 * 60;

/// Uncapped accrual: `floor(amount_staked * elapsed_time / SECONDS_PER_MONTH)`.
pub open spec fn accrued_reward(amount_staked: int, elapsed_time: int) -> int {
    (amount_staked * elapsed_time) / (SECONDS_PER_MONTH as int)
}

/// The reward owed for a stake of `amount_staked` held for `elapsed_time`
/// seconds: linear accrual capped by the pool's *total* budget. The cap
/// deliberately uses the total, not the remaining budget; sufficiency
/// against the remaining budget is a separate check at the unstake boundary.
pub open spec fn reward_for(amount_staked: int, elapsed_time: int, total_reward: int) -> int {
    if accrued_reward(amount_staked, elapsed_time) <= total_reward {
        accrued_reward(amount_staked, elapsed_time)
    } else {
        total_reward
    }
}

/// On non-negative inputs the reward lies between zero and the total budget.
pub proof fn lemma_reward_for_bounds(amount_staked: int, elapsed_time: int, total_reward: int)
    requires
        0 <= amount_staked,
        0 <= elapsed_time,
        0 <= total_reward,
    ensures
        0 <= reward_for(amount_staked, elapsed_time, total_reward) <= total_reward,
{
    lemma_mul_nonnegative(amount_staked, elapsed_time);
    lemma_div_pos_is_pos(amount_staked * elapsed_time, SECONDS_PER_MONTH as int);
}

/// Computes `reward_for` exactly. The product is taken at double width, so
/// no pair of operands overflows; the final value fits in `u64` because the
/// cap bounds it by `total_reward`.
pub fn calculate_reward(amount_staked: u64, elapsed_time: u64, total_reward: u64) -> (reward: u64)
    ensures
        reward == reward_for(amount_staked as int, elapsed_time as int, total_reward as int),
        reward <= total_reward,
{
    proof {
        lemma_mul_upper_bound(amount_staked as int, u64::MAX as int, elapsed_time as int, u64::MAX as int);
    }
    let product: u128 = (amount_staked as u128) * (elapsed_time as u128);
    let accrued: u128 = product / (SECONDS_PER_MONTH as u128);
    if accrued <= total_reward as u128 {
        accrued as u64
    } else {
        total_reward
    }
}

} // verus!

//! The laws of the accounting engine, stated over the spec-level
//! transitions and proved once for all inputs.

use vstd::prelude::*;
use crate::ops::{period_complete, spec_stake, spec_unstake, unstake_reward};
use crate::reward::lemma_reward_for_bounds;
use crate::state::{AirdropPool, CustomError, StakeEvent, StakerAccount, UnstakeEvent};

verus! {

/// Law: a valid pool stays valid — `0 <= available_reward <= total_reward`
/// holds after every operation. Initialization establishes the bound (its
/// `ensures` states `wf`), staking does not touch the pool at all (the pool
/// is not an input of `spec_stake`), and an unstake, proved here, preserves
/// it whatever the outcome.
pub proof fn law_pool_bound_after_unstake(staker: StakerAccount, pool: AirdropPool, current_time: u64)
    requires
        pool.wf(),
    ensures
        spec_unstake(staker, pool, current_time).1.wf(),
        spec_unstake(staker, pool, current_time).1.total_reward == pool.total_reward,
        spec_unstake(staker, pool, current_time).1.available_reward <= pool.available_reward,
{
    if period_complete(staker, current_time) {
        lemma_reward_for_bounds(
            staker.amount_staked as int,
            current_time - staker.start_time,
            pool.total_reward as int,
        );
    }
}

/// Law: staking on an already-active position always fails with
/// `AlreadyStaked` and leaves the position exactly as it was; the pool is
/// untouched by construction, being no input of the stake transition.
pub proof fn law_stake_on_active_fails(
    staker: StakerAccount,
    amount: u64,
    staking_period: u64,
    current_time: u64,
)
    requires
        !staker.is_idle(),
    ensures
        spec_stake(staker, amount, staking_period, current_time)
            == (staker, Err::<StakeEvent, CustomError>(CustomError::AlreadyStaked)),
{
}

/// Law: unstaking before `start_time + staking_period` always fails with
/// `StakingPeriodNotComplete` and leaves both records unchanged.
pub proof fn law_unstake_before_period_fails(
    staker: StakerAccount,
    pool: AirdropPool,
    current_time: u64,
)
    requires
        !period_complete(staker, current_time),
    ensures
        spec_unstake(staker, pool, current_time)
            == (staker, pool, Err::<UnstakeEvent, CustomError>(
                CustomError::StakingPeriodNotComplete,
            )),
{
}

/// Law: an unstake whose reward exceeds the remaining budget always fails
/// with `InsufficientRewardPool` and mutates nothing.
pub proof fn law_unstake_insufficient_pool_fails(
    staker: StakerAccount,
    pool: AirdropPool,
    current_time: u64,
)
    requires
        period_complete(staker, current_time),
        unstake_reward(staker, pool, current_time) > pool.available_reward,
    ensures
        spec_unstake(staker, pool, current_time)
            == (staker, pool, Err::<UnstakeEvent, CustomError>(
                CustomError::InsufficientRewardPool,
            )),
{
}

/// Law: a completed cycle leaves the position idle, so the same position
/// accepts a fresh stake — whenever an unstake succeeds, a subsequent stake
/// on the resulting position succeeds.
pub proof fn law_restake_after_cycle(
    staker: StakerAccount,
    pool: AirdropPool,
    unstake_time: u64,
    amount: u64,
    staking_period: u64,
    restake_time: u64,
)
    requires
        spec_unstake(staker, pool, unstake_time).2 is Ok,
    ensures
        ({
            let after = spec_unstake(staker, pool, unstake_time).0;
            &&& after.is_idle()
            &&& spec_stake(after, amount, staking_period, restake_time).1 is Ok
        }),
{
}

} // verus!

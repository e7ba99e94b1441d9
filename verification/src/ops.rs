//! The three operations, each as a mathematical transition on the records
//! plus an executable function proved equal to it.
//!
//! Atomicity with the custody transfer is the hosting environment's part:
//! it applies an operation to copies of the records, carries out the
//! transfer the returned event describes, and persists the copies only once
//! the transfer has succeeded, so that a failing transfer leaves no trace.

use vstd::prelude::*;
use crate::reward::{calculate_reward, lemma_reward_for_bounds, reward_for};
use crate::state::{AirdropPool, CustomError, StakeEvent, StakerAccount, UnstakeEvent};

verus! {

/// Staked amount at or above which premium access is granted.
pub const PREMIUM_THRESHOLD: u64 = 1000;

/// The position a successful stake writes: the principal, the chosen
/// period, the stake time, and premium access iff the principal meets the
/// threshold.
pub open spec fn staked_position(amount: u64, staking_period: u64, current_time: u64) -> StakerAccount {
    StakerAccount {
        amount_staked: amount,
        staking_period: staking_period,
        start_time: current_time,
        has_premium_access: amount >= PREMIUM_THRESHOLD,
    }
}

/// The position after a successful unstake: idle again, premium access
/// revoked; the period and start time are left stale until the next stake.
pub open spec fn unstaked_position(staker: StakerAccount) -> StakerAccount {
    StakerAccount { amount_staked: 0, has_premium_access: false, ..staker }
}

/// Whether the position's chosen period has elapsed at `current_time`.
pub open spec fn period_complete(staker: StakerAccount, current_time: u64) -> bool {
    current_time >= staker.start_time + staker.staking_period
}

/// The reward an unstake at `current_time` owes: linear accrual over the
/// elapsed time, capped by the pool's total budget.
pub open spec fn unstake_reward(staker: StakerAccount, pool: AirdropPool, current_time: u64) -> int {
    reward_for(
        staker.amount_staked as int,
        current_time - staker.start_time,
        pool.total_reward as int,
    )
}

/// The stake transition: the position afterwards, and the outcome. The pool
/// is not an input: staking reads and writes only the caller's position.
pub open spec fn spec_stake(
    staker: StakerAccount,
    amount: u64,
    staking_period: u64,
    current_time: u64,
) -> (StakerAccount, Result<StakeEvent, CustomError>) {
    if !staker.is_idle() {
        (staker, Err(CustomError::AlreadyStaked))
    } else {
        (
            staked_position(amount, staking_period, current_time),
            Ok(StakeEvent { amount, staking_period }),
        )
    }
}

/// The unstake transition: both records afterwards, and the outcome. Every
/// failure leaves both records exactly as they were.
pub open spec fn spec_unstake(
    staker: StakerAccount,
    pool: AirdropPool,
    current_time: u64,
) -> (StakerAccount, AirdropPool, Result<UnstakeEvent, CustomError>) {
    if !period_complete(staker, current_time) {
        (staker, pool, Err(CustomError::StakingPeriodNotComplete))
    } else {
        let reward = unstake_reward(staker, pool, current_time);
        if reward > pool.available_reward {
            (staker, pool, Err(CustomError::InsufficientRewardPool))
        } else {
            (
                unstaked_position(staker),
                AirdropPool { available_reward: (pool.available_reward - reward) as u64, ..pool },
                Ok(UnstakeEvent { amount: staker.amount_staked, reward: reward as u64 }),
            )
        }
    }
}

/// Creates the pool with its whole budget still available. Uniqueness of
/// the pool record (creation fails if one already exists) is enforced by
/// the storage-provisioning collaborator, not here.
pub fn initialize_pool(total_reward: u64, bump: u8) -> (pool: AirdropPool)
    ensures
        pool.total_reward == total_reward,
        pool.available_reward == total_reward,
        pool.bump == bump,
        pool.wf(),
{
    AirdropPool { total_reward, available_reward: total_reward, bump }
}

/// Opens the caller's position, or fails with `AlreadyStaked` — the sole
/// defense against overwriting an active position — leaving it unchanged.
/// The returned event names the transfer the hosting environment owes (the
/// principal, into the pool's custody) and what its notification reports.
/// A zero amount would leave the position indistinguishable from an idle
/// one, and a zero period makes the stake meaningless, so both are rejected
/// at this boundary by precondition.
pub fn stake_tokens(
    staker: &mut StakerAccount,
    amount: u64,
    staking_period: u64,
    current_time: u64,
) -> (r: Result<StakeEvent, CustomError>)
    requires
        amount > 0,
        staking_period > 0,
    ensures
        (*final(staker), r) == spec_stake(*old(staker), amount, staking_period, current_time),
        !old(staker).is_idle() ==> r == Err::<StakeEvent, CustomError>(CustomError::AlreadyStaked)
            && *final(staker) == *old(staker),
        old(staker).is_idle() ==> (r matches Ok(e)
            && e.amount == amount
            && e.staking_period == staking_period)
            && *final(staker) == staked_position(amount, staking_period, current_time),
{
    if staker.amount_staked != 0 {
        return Err(CustomError::AlreadyStaked);
    }
    staker.amount_staked = amount;
    staker.staking_period = staking_period;
    staker.start_time = current_time;
    staker.has_premium_access = amount >= PREMIUM_THRESHOLD;
    Ok(StakeEvent { amount, staking_period })
}

/// Closes the caller's position once its period has elapsed, paying the
/// accrued reward out of the pool's remaining budget. Checks, in order:
/// the period (`StakingPeriodNotComplete`), then sufficiency of the
/// remaining budget against the computed reward (`InsufficientRewardPool`).
/// Every failure leaves both records unchanged. On success the returned
/// event names the transfer the hosting environment owes (the reward, out
/// of the pool's custody), the position returns to idle, and
/// the pool's remaining budget drops by exactly the reward — the
/// sufficiency check makes the subtraction provably free of underflow.
/// The clock is monotonic, so the current time is never before the
/// recorded start time.
pub fn unstake_and_claim(
    staker: &mut StakerAccount,
    pool: &mut AirdropPool,
    current_time: u64,
) -> (r: Result<UnstakeEvent, CustomError>)
    requires
        old(pool).wf(),
        current_time >= old(staker).start_time,
    ensures
        (*final(staker), *final(pool), r) == spec_unstake(*old(staker), *old(pool), current_time),
        final(pool).wf(),
        final(pool).total_reward == old(pool).total_reward,
        final(pool).available_reward <= old(pool).available_reward,
        r is Err ==> *final(staker) == *old(staker) && *final(pool) == *old(pool),
        r is Ok ==> final(staker).is_idle() && !final(staker).has_premium_access,
{
    proof {
        lemma_reward_for_bounds(
            old(staker).amount_staked as int,
            current_time - old(staker).start_time,
            old(pool).total_reward as int,
        );
    }
    let elapsed: u64 = current_time - staker.start_time;
    if elapsed < staker.staking_period {
        return Err(CustomError::StakingPeriodNotComplete);
    }
    let reward: u64 = calculate_reward(staker.amount_staked, elapsed, pool.total_reward);
    if reward > pool.available_reward {
        return Err(CustomError::InsufficientRewardPool);
    }
    let principal: u64 = staker.amount_staked;
    staker.amount_staked = 0;
    staker.has_premium_access = false;
    pool.available_reward = pool.available_reward - reward;
    Ok(UnstakeEvent { amount: principal, reward })
}

} // verus!

use staking_airdrop::ops::{initialize_pool, stake_tokens, unstake_and_claim, PREMIUM_THRESHOLD};
use staking_airdrop::reward::{calculate_reward, SECONDS_PER_MONTH};
use staking_airdrop::state::{AirdropPool, CustomError, StakeEvent, StakerAccount, UnstakeEvent};

#[test]
fn reward_thirty_days_is_linear() {
    // A full month at 3000 staked accrues the whole principal, under the cap.
    assert_eq!(calculate_reward(3000, 2_592_000, 10_000), 3000);
}

#[test]
fn reward_capped_by_total_budget() {
    // The cap uses the pool's total, even when the accrual is far larger.
    assert_eq!(calculate_reward(1_000_000, 2_592_000, 500), 500);
}

#[test]
fn reward_floors_partial_months() {
    assert_eq!(calculate_reward(100, 1_296_000, 1000), 50);
    assert_eq!(calculate_reward(3, 1000, 100), 0);
    assert_eq!(calculate_reward(0, SECONDS_PER_MONTH, 100), 0);
}

#[test]
fn reward_wide_product_stays_exact() {
    // The product of the two largest operands still computes, and the cap holds.
    assert_eq!(calculate_reward(u64::MAX, u64::MAX, 7), 7);
    assert_eq!(calculate_reward(u64::MAX, 0, 7), 0);
}

#[test]
fn initialize_pool_offers_whole_budget() {
    let pool = initialize_pool(100_000, 42);
    assert_eq!(pool.total_reward, 100_000);
    assert_eq!(pool.available_reward, 100_000);
    assert_eq!(pool.bump, 42);
}

#[test]
fn stake_records_position_and_event() {
    let mut staker = StakerAccount::new();
    let r = stake_tokens(&mut staker, 1500, 2_592_000, 1_000_000);
    assert_eq!(r, Ok(StakeEvent { amount: 1500, staking_period: 2_592_000 }));
    assert_eq!(staker.amount_staked, 1500);
    assert_eq!(staker.staking_period, 2_592_000);
    assert_eq!(staker.start_time, 1_000_000);
    assert!(staker.has_premium_access);
}

#[test]
fn premium_access_exactly_at_threshold() {
    let mut at = StakerAccount::new();
    stake_tokens(&mut at, PREMIUM_THRESHOLD, 60, 5).unwrap();
    assert!(at.has_premium_access);

    let mut below = StakerAccount::new();
    stake_tokens(&mut below, PREMIUM_THRESHOLD - 1, 60, 5).unwrap();
    assert!(!below.has_premium_access);
}

#[test]
fn stake_on_active_position_fails_unchanged() {
    let mut staker = StakerAccount::new();
    stake_tokens(&mut staker, 800, 60, 5).unwrap();
    let before = staker;
    let r = stake_tokens(&mut staker, 900, 120, 50);
    assert_eq!(r, Err(CustomError::AlreadyStaked));
    assert_eq!(staker, before);
}

#[test]
fn unstake_before_period_fails_unchanged() {
    let mut pool = initialize_pool(10_000, 1);
    let mut staker = StakerAccount::new();
    stake_tokens(&mut staker, 500, 1000, 100).unwrap();
    let (staker_before, pool_before) = (staker, pool);
    let r = unstake_and_claim(&mut staker, &mut pool, 1099);
    assert_eq!(r, Err(CustomError::StakingPeriodNotComplete));
    assert_eq!(staker, staker_before);
    assert_eq!(pool, pool_before);
}

#[test]
fn unstake_with_depleted_pool_fails_unchanged() {
    // The accrual cap uses the total budget, so a nearly-drained pool can
    // still owe more than it has available; the sufficiency check catches it.
    let mut pool = AirdropPool { total_reward: 10_000, available_reward: 100, bump: 0 };
    let mut staker = StakerAccount::new();
    stake_tokens(&mut staker, 5000, SECONDS_PER_MONTH, 0).unwrap();
    let (staker_before, pool_before) = (staker, pool);
    let r = unstake_and_claim(&mut staker, &mut pool, SECONDS_PER_MONTH);
    assert_eq!(r, Err(CustomError::InsufficientRewardPool));
    assert_eq!(staker, staker_before);
    assert_eq!(pool, pool_before);
}

#[test]
fn full_cycle_pays_and_resets() {
    let mut pool = initialize_pool(100_000, 3);
    let mut staker = StakerAccount::new();

    let staked = stake_tokens(&mut staker, 1500, 2_592_000, 1_000_000);
    assert_eq!(staked, Ok(StakeEvent { amount: 1500, staking_period: 2_592_000 }));
    assert!(staker.has_premium_access);

    let r = unstake_and_claim(&mut staker, &mut pool, 1_000_000 + 2_592_000);
    assert_eq!(r, Ok(UnstakeEvent { amount: 1500, reward: 1500 }));
    assert_eq!(staker.amount_staked, 0);
    assert!(!staker.has_premium_access);
    assert_eq!(pool.available_reward, 100_000 - 1500);
    assert_eq!(pool.total_reward, 100_000);
    assert!(pool.available_reward <= pool.total_reward);
}

#[test]
fn restake_after_completed_cycle_succeeds() {
    let mut pool = initialize_pool(100_000, 3);
    let mut staker = StakerAccount::new();
    stake_tokens(&mut staker, 1500, 2_592_000, 1_000_000).unwrap();
    unstake_and_claim(&mut staker, &mut pool, 1_000_000 + 2_592_000).unwrap();

    let r = stake_tokens(&mut staker, 2000, 600, 4_000_000);
    assert_eq!(r, Ok(StakeEvent { amount: 2000, staking_period: 600 }));
    assert_eq!(staker.amount_staked, 2000);
    assert_eq!(staker.start_time, 4_000_000);
    assert!(staker.has_premium_access);
}

#[test]
fn unstake_idle_position_pays_nothing() {
    // An idle position's stale fields trivially pass the period check and
    // accrue a zero reward, leaving the pool's budget untouched.
    let mut pool = initialize_pool(5000, 9);
    let mut staker = StakerAccount::new();
    let r = unstake_and_claim(&mut staker, &mut pool, 10);
    assert_eq!(r, Ok(UnstakeEvent { amount: 0, reward: 0 }));
    assert_eq!(pool.available_reward, 5000);
}

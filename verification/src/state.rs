//! The two persistent records and the operations' error taxonomy.

use vstd::prelude::*;

verus! {

/// The singleton pool record: a fixed total reward budget and the part of it
/// still available for payment. Its custody-account metadata is reduced to
/// the derivation bump chosen by the storage-provisioning collaborator.
#[derive(Clone, Copy, PartialEq, Eq, Structural, Debug)]
pub struct AirdropPool {
    /// Total budget ever distributable; fixed at creation.
    pub total_reward: u64,
    /// Remaining budget; only ever decreases, by exactly what is paid out.
    pub available_reward: u64,
    /// Derivation seed for the pool's custody account (opaque to this core).
    pub bump: u8,
}

impl AirdropPool {
    /// Well-formedness: the remaining budget never exceeds the fixed total.
    pub open spec fn wf(self) -> bool {
        self.available_reward <= self.total_reward
    }
}

/// One participant's stake record. A position is idle when `amount_staked`
/// is zero; `staking_period` and `start_time` are meaningful only while the
/// position is active, and are left stale after an unstake.
#[derive(Clone, Copy, PartialEq, Eq, Structural, Debug)]
pub struct StakerAccount {
    /// Principal currently staked; zero means no active position.
    pub amount_staked: u64,
    /// Chosen duration of the stake, in seconds.
    pub staking_period: u64,
    /// Unix time (seconds) at which the active stake began.
    pub start_time: u64,
    /// Privilege flag granted when the staked amount meets the threshold.
    pub has_premium_access: bool,
}

impl StakerAccount {
    /// A position accepts a new stake exactly when it is idle.
    pub open spec fn is_idle(self) -> bool {
        self.amount_staked == 0
    }

    /// A fresh, idle position record, as the storage-provisioning
    /// collaborator creates it.
    pub fn new() -> (s: StakerAccount)
        ensures
            s.is_idle(),
            s.staking_period == 0,
            s.start_time == 0,
            !s.has_premium_access,
    {
        StakerAccount { amount_staked: 0, staking_period: 0, start_time: 0, has_premium_access: false }
    }
}

/// User-facing precondition violations; each is recoverable by retrying
/// later or with different inputs.
#[derive(Clone, Copy, PartialEq, Eq, Structural, Debug)]
pub enum CustomError {
    /// UnstakeAndClaim before the chosen period has elapsed.
    StakingPeriodNotComplete,
    /// The computed reward exceeds what the pool still has available.
    InsufficientRewardPool,
    /// Stake while the caller's position is already active.
    AlreadyStaked,
}

/// What a stake notification must report. Participant identity is attached
/// by the hosting environment, which owns signer verification.
#[derive(Clone, Copy, PartialEq, Eq, Structural, Debug)]
pub struct StakeEvent {
    /// Principal moved into custody.
    pub amount: u64,
    /// Chosen duration of the stake, in seconds.
    pub staking_period: u64,
}

/// What an unstake notification must report. `amount` is the principal that
/// was withdrawn (the pre-reset value, not the zeroed field): reporting the
/// record's post-reset amount would make every notification read zero, so
/// this core fixes the reported figure to the principal.
#[derive(Clone, Copy, PartialEq, Eq, Structural, Debug)]
pub struct UnstakeEvent {
    /// Principal whose stake was closed.
    pub amount: u64,
    /// Reward paid out of the pool's custody.
    pub reward: u64,
}

} // verus!

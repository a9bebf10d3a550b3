//! What the operations of the ledger report to the caller, who may publish
//! it.

use crate::address::Address;
use crate::state::RateMode;
use vstd::prelude::*;

verus! {

/// A pool was created.
#[derive(Clone, Copy, Debug, PartialEq, Eq)]
pub struct ProjectCreated {
    pub project: Address,
    pub token_mint: Address,
    pub staking_vault: Address,
    pub reward_vault: Address,
    pub admin: Address,
}

/// A pool was configured and its window opened.
#[derive(Clone, Copy, Debug, PartialEq, Eq)]
pub struct PoolInitialized {
    pub project: Address,
    pub staking_vault: Address,
    pub reward_vault: Address,
    pub reflection_vault: Option<Address>,
    pub rate_bps_per_year: u64,
    pub rate_mode: RateMode,
    pub lockup_seconds: u64,
    pub pool_duration_seconds: u64,
    pub reflections_enabled: bool,
}

/// Principal was staked.
#[derive(Clone, Copy, Debug, PartialEq, Eq)]
pub struct TokensDeposited {
    pub user: Address,
    pub project: Address,
    /// What the stake was credited with.
    pub amount: u64,
    pub token_fee: u64,
    pub sol_fee: u64,
    /// The stake's principal after the deposit.
    pub new_total: u64,
}

/// Principal was returned.
#[derive(Clone, Copy, Debug, PartialEq, Eq)]
pub struct TokensWithdrawn {
    pub user: Address,
    pub project: Address,
    pub amount: u64,
    /// The stake's principal after the withdrawal.
    pub remaining: u64,
}

/// Pending rewards were paid out.
#[derive(Clone, Copy, Debug, PartialEq, Eq)]
pub struct RewardsClaimed {
    pub user: Address,
    pub project: Address,
    pub amount: u64,
}

/// Pending reflections were paid out.
#[derive(Clone, Copy, Debug, PartialEq, Eq)]
pub struct ReflectionsClaimed {
    pub user: Address,
    pub project: Address,
    pub amount: u64,
}

/// The reward vault was funded.
#[derive(Clone, Copy, Debug, PartialEq, Eq)]
pub struct RewardsDeposited {
    pub project: Address,
    pub amount: u64,
    pub total_rewards: u64,
    pub reward_rate: u64,
}

/// The pool's admin returned a user's whole principal.
#[derive(Clone, Copy, Debug, PartialEq, Eq)]
pub struct EmergencyStakeReturned {
    pub project: Address,
    pub user: Address,
    pub amount: u64,
}

/// The pool's duration was changed.
#[derive(Clone, Copy, Debug, PartialEq, Eq)]
pub struct PoolDurationUpdated {
    pub project: Address,
    pub duration_seconds: u64,
}

} // verus!

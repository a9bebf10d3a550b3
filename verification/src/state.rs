//! The persistent records of the ledger: one [`Platform`] per deployment, one
//! [`Project`] per pool and one [`Stake`] per user of a pool.

use crate::address::Address;
use crate::errors::ErrorCode;
use crate::math::BPS_DENOMINATOR;
use vstd::prelude::*;

verus! {

/// How a pool's emission rate is set.
#[derive(Clone, Copy, Debug, PartialEq, Eq, Structural)]
pub enum RateMode {
    /// A constant annual percentage, fixed when the pool is initialized. The
    /// per-second rate is the reward of one staked unit, scaled by
    /// `PRECISION`.
    Fixed,
    /// The unclaimed reward liquidity spread evenly over the remaining pool
    /// lifetime. The per-second rate is the emission of the whole pool.
    Variable,
}

impl RateMode {
    /// The mode that the stored code `code` stands for.
    pub open spec fn decode(code: u8) -> Option<RateMode> {
        if code == 0 {
            Some(RateMode::Fixed)
        } else if code == 1 {
            Some(RateMode::Variable)
        } else {
            None
        }
    }

    /// The code under which this mode is stored.
    pub open spec fn code(self) -> u8 {
        match self {
            RateMode::Fixed => 0,
            RateMode::Variable => 1,
        }
    }

    /// Reads a stored mode: 0 is fixed, 1 is variable, anything else is
    /// rejected with `InvalidRateMode`.
    pub fn from_u8(code: u8) -> (r: Result<RateMode, ErrorCode>)
        ensures
            match RateMode::decode(code) {
                Some(mode) => r is Ok && r->Ok_0 == mode,
                None => r matches Err(ErrorCode::InvalidRateMode),
            },
    {
        if code == 0 {
            Ok(RateMode::Fixed)
        } else if code == 1 {
            Ok(RateMode::Variable)
        } else {
            Err(ErrorCode::InvalidRateMode)
        }
    }

    /// The code to store for this mode.
    pub fn to_u8(&self) -> (code: u8)
        ensures
            code == self.code(),
            RateMode::decode(code) == Some(*self),
    {
        match self {
            RateMode::Fixed => 0,
            RateMode::Variable => 1,
        }
    }
}

/// Deployment-wide fee configuration.
#[derive(Clone, Copy, Debug, PartialEq, Eq)]
pub struct Platform {
    pub admin: Address,
    pub fee_collector: Address,
    /// Share of every deposit kept as a fee, in basis points.
    pub platform_token_fee_bps: u64,
    /// Flat fee in the native asset charged per deposit.
    pub platform_sol_fee: u64,
    pub is_initialized: bool,
    pub bump: u8,
}

/// One staking pool.
#[derive(Clone, Copy, Debug, PartialEq, Eq)]
pub struct Project {
    pub admin: Address,
    pub token_mint: Address,
    pub pool_id: u64,
    pub staking_vault: Address,
    pub reward_vault: Address,
    pub reflection_vault: Option<Address>,
    pub reflection_token: Option<Address>,
    /// Principal currently staked: the sum of `amount` over the pool's stakes.
    pub total_staked: u64,
    pub total_rewards_deposited: u64,
    pub total_rewards_claimed: u64,
    pub rate_bps_per_year: u64,
    pub rate_mode: RateMode,
    pub reward_rate_per_second: u64,
    pub lockup_seconds: u64,
    pub pool_duration_seconds: u64,
    pub pool_start_time: i64,
    pub pool_end_time: i64,
    /// The time up to which `reward_per_token_stored` has been advanced.
    pub last_update_time: i64,
    /// Reward earned so far by one staked unit, scaled by `PRECISION`.
    pub reward_per_token_stored: u64,
    /// Reflection earned so far by one staked unit, scaled by `PRECISION`.
    pub reflection_per_token_stored: u64,
    pub last_reflection_update_time: i64,
    /// The reflection vault balance up to which
    /// `reflection_per_token_stored` has been advanced.
    pub last_reflection_balance: u64,
    pub referrer: Option<Address>,
    pub referrer_split_bps: u64,
    pub is_paused: bool,
    pub deposit_paused: bool,
    pub withdraw_paused: bool,
    pub claim_paused: bool,
    pub is_initialized: bool,
    pub enable_reflections: bool,
    pub bump: u8,
    pub total_reflection_debt: u64,
}

/// The position of one user in one pool.
#[derive(Clone, Copy, Debug, PartialEq, Eq)]
pub struct Stake {
    pub user: Address,
    pub project: Address,
    /// Principal currently staked.
    pub amount: u64,
    pub last_stake_timestamp: i64,
    /// Where withdrawn principal is sent; need not be the user.
    pub withdrawal_wallet: Address,
    /// `reward_per_token_stored` of the pool at the last settlement.
    pub reward_per_token_paid: u64,
    pub rewards_pending: u64,
    pub total_rewards_claimed: u64,
    /// `reflection_per_token_stored` of the pool at the last settlement.
    pub reflection_per_token_paid: u64,
    pub reflections_pending: u64,
    pub total_reflections_claimed: u64,
    /// Reflection entitlement to withhold from the next credit.
    pub reflection_debt: u64,
    pub bump: u8,
}

impl Project {
    /// What holds of every pool's record: the referrer has no more than the
    /// whole fee, the pool ends its duration after its start, and a pool with
    /// reflections has a token and a vault for them.
    pub open spec fn well_formed(self) -> bool {
        &&& self.referrer_split_bps <= BPS_DENOMINATOR
        &&& self.pool_end_time == self.pool_start_time + self.pool_duration_seconds
        &&& self.enable_reflections ==> self.reflection_token is Some && self.reflection_vault
            is Some
    }

    /// Whether reflections are accounted for in this pool.
    pub open spec fn reflections_active(self) -> bool {
        self.enable_reflections && self.reflection_token is Some
    }

    /// Whether reflections are accounted for in this pool.
    pub fn has_reflections(&self) -> (r: bool)
        ensures
            r == self.reflections_active(),
    {
        self.enable_reflections && self.reflection_token.is_some()
    }
}

} // verus!

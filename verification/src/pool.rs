//! The life of a pool: creation, configuration, funding, and changes of its
//! duration.
//!
//! Whatever changes the emission rate first advances the reward accumulator
//! to the present, so that a new rate only ever applies to time that has not
//! passed yet.

use crate::address::{Address, AssetKind};
use crate::errors::ErrorCode;
use crate::events::{PoolDurationUpdated, PoolInitialized, ProjectCreated, RewardsDeposited};
use crate::math::{mul_div, mul_div_floor, BPS_DENOMINATOR, PRECISION, SECONDS_PER_YEAR};
use crate::rewards::{accrual_fits, accrue_rewards, accrued};
use crate::state::{Project, RateMode};
use vstd::prelude::*;

verus! {

/// The highest annual rate a pool can be configured with, in basis points.
pub const MAX_RATE_BPS: u64 = 1_000_000;

/// A pool as it is created: empty, unconfigured, nothing paused.
pub open spec fn empty_project(
    admin: Address,
    token_mint: Address,
    pool_id: u64,
    staking_vault: Address,
    reward_vault: Address,
    bump: u8,
) -> Project {
    Project {
        admin,
        token_mint,
        pool_id,
        staking_vault,
        reward_vault,
        reflection_vault: None,
        reflection_token: None,
        total_staked: 0,
        total_rewards_deposited: 0,
        total_rewards_claimed: 0,
        rate_bps_per_year: 0,
        rate_mode: RateMode::Fixed,
        reward_rate_per_second: 0,
        lockup_seconds: 0,
        pool_duration_seconds: 0,
        pool_start_time: 0,
        pool_end_time: 0,
        last_update_time: 0,
        reward_per_token_stored: 0,
        reflection_per_token_stored: 0,
        last_reflection_update_time: 0,
        last_reflection_balance: 0,
        referrer: None,
        referrer_split_bps: 0,
        is_paused: false,
        deposit_paused: false,
        withdraw_paused: false,
        claim_paused: false,
        is_initialized: false,
        enable_reflections: false,
        bump,
        total_reflection_debt: 0,
    }
}

/// Creates an empty pool for the token `token_mint` under the identity
/// `project_key`.
pub fn create_project(
    project_key: Address,
    admin: Address,
    token_mint: Address,
    pool_id: u64,
    staking_vault: Address,
    reward_vault: Address,
    bump: u8,
) -> (r: (Project, ProjectCreated))
    ensures
        r.0 == empty_project(admin, token_mint, pool_id, staking_vault, reward_vault, bump),
        r.1 == (ProjectCreated {
            project: project_key,
            token_mint,
            staking_vault,
            reward_vault,
            admin,
        }),
        r.0.well_formed(),
{
    (
        Project {
            admin,
            token_mint,
            pool_id,
            staking_vault,
            reward_vault,
            reflection_vault: None,
            reflection_token: None,
            total_staked: 0,
            total_rewards_deposited: 0,
            total_rewards_claimed: 0,
            rate_bps_per_year: 0,
            rate_mode: RateMode::Fixed,
            reward_rate_per_second: 0,
            lockup_seconds: 0,
            pool_duration_seconds: 0,
            pool_start_time: 0,
            pool_end_time: 0,
            last_update_time: 0,
            reward_per_token_stored: 0,
            reflection_per_token_stored: 0,
            last_reflection_update_time: 0,
            last_reflection_balance: 0,
            referrer: None,
            referrer_split_bps: 0,
            is_paused: false,
            deposit_paused: false,
            withdraw_paused: false,
            claim_paused: false,
            is_initialized: false,
            enable_reflections: false,
            bump,
            total_reflection_debt: 0,
        },
        ProjectCreated { project: project_key, token_mint, staking_vault, reward_vault, admin },
    )
}

/// How a pool is to be configured.
#[derive(Clone, Copy, Debug, PartialEq, Eq)]
pub struct InitializePoolParams {
    pub rate_bps_per_year: u64,
    pub rate_mode: RateMode,
    pub lockup_seconds: u64,
    pub pool_duration_seconds: u64,
    pub referrer: Option<Address>,
    pub referrer_split_bps: Option<u64>,
    pub enable_reflections: bool,
    pub reflection_token: Option<Address>,
}

/// A request to configure a pool.
#[derive(Clone, Copy, Debug, PartialEq, Eq)]
pub struct InitializePoolArgs {
    /// Who asks.
    pub admin: Address,
    /// The pool's identity.
    pub project_key: Address,
    /// The token the pool is said to be for.
    pub token_mint: Address,
    /// The id the pool is said to have.
    pub pool_id: u64,
    /// The vault that reflections will be observed in, if the caller
    /// provided one.
    pub reflection_vault: Option<Address>,
    pub now: i64,
}

/// The account in which a pool's reflections are to be observed.
///
/// A pool without reflections, or without a reflection token, has none. The
/// native asset gathers in the pool's own account. A token gathers in the
/// pool's token account for it, if the caller supplied one.
pub open spec fn reflection_vault_of(
    enabled: bool,
    token: Option<Address>,
    project_key: Address,
    token_account: Option<Address>,
) -> Option<Address> {
    if !enabled || token is None {
        None
    } else if AssetKind::of(token->Some_0) is Native {
        Some(project_key)
    } else {
        token_account
    }
}

/// Chooses the account in which a pool's reflections are to be observed.
pub fn reflection_vault_for(
    enabled: bool,
    token: Option<Address>,
    project_key: Address,
    token_account: Option<Address>,
) -> (v: Option<Address>)
    ensures
        v == reflection_vault_of(enabled, token, project_key, token_account),
        !enabled || token is None ==> v is None,
        enabled && token is Some && AssetKind::of(token->Some_0) is Native ==> v == Some(
            project_key,
        ),
        enabled && token is Some && !(AssetKind::of(token->Some_0) is Native) ==> v
            == token_account,
{
    if !enabled {
        return None;
    }
    match token {
        None => None,
        Some(token) => {
            if AssetKind::of_mint(&token).is_native() {
                Some(project_key)
            } else {
                token_account
            }
        },
    }
}

/// The per-second rate of a fixed pool that pays `rate_bps` basis points a
/// year: the reward of one staked unit per second, scaled by `PRECISION`.
pub open spec fn fixed_rate(rate_bps: u64) -> int {
    mul_div_floor(rate_bps as int, PRECISION as int, BPS_DENOMINATOR * SECONDS_PER_YEAR)
}

/// Why the configuration of a pool is rejected, if it is.
pub open spec fn initialize_pool_rejection(
    p: Project,
    params: InitializePoolParams,
    a: InitializePoolArgs,
) -> Option<ErrorCode> {
    if p.admin != a.admin {
        Some(ErrorCode::Unauthorized)
    } else if p.is_initialized {
        Some(ErrorCode::AlreadyInitialized)
    } else if params.pool_duration_seconds == 0 {
        Some(ErrorCode::InvalidPoolDuration)
    } else if p.token_mint != a.token_mint {
        Some(ErrorCode::WrongTokenType)
    } else if p.pool_id != a.pool_id {
        Some(ErrorCode::InvalidProject)
    } else if params.rate_bps_per_year > MAX_RATE_BPS {
        Some(ErrorCode::InvalidRateBps)
    } else if params.referrer_split_bps is Some && params.referrer_split_bps->Some_0
        > BPS_DENOMINATOR {
        Some(ErrorCode::InvalidReferrerSplit)
    } else if a.now + params.pool_duration_seconds > i64::MAX {
        Some(ErrorCode::MathOverflow)
    } else if params.enable_reflections && params.reflection_token is None {
        Some(ErrorCode::ReflectionTokenRequired)
    } else if params.enable_reflections && a.reflection_vault is None {
        Some(ErrorCode::ReflectionVaultRequired)
    } else {
        None
    }
}

/// The pool as its configuration leaves it.
///
/// The window opens at `now` and lasts the configured duration; both
/// accumulators count from `now`. A fixed pool gets its rate from the annual
/// percentage, a variable one has none until rewards are deposited. A
/// referrer is set only if one is given, and reflections only if they are
/// enabled.
pub open spec fn initialized_project(
    p: Project,
    params: InitializePoolParams,
    a: InitializePoolArgs,
) -> Project {
    Project {
        rate_mode: params.rate_mode,
        rate_bps_per_year: params.rate_bps_per_year,
        lockup_seconds: params.lockup_seconds,
        pool_duration_seconds: params.pool_duration_seconds,
        pool_start_time: a.now,
        pool_end_time: (a.now + params.pool_duration_seconds) as i64,
        last_update_time: a.now,
        last_reflection_update_time: a.now,
        reward_rate_per_second: match params.rate_mode {
            RateMode::Fixed => fixed_rate(params.rate_bps_per_year) as u64,
            RateMode::Variable => 0,
        },
        referrer: if params.referrer is Some {
            params.referrer
        } else {
            p.referrer
        },
        referrer_split_bps: if params.referrer is Some {
            match params.referrer_split_bps {
                Some(bps) => bps,
                None => 0,
            }
        } else {
            p.referrer_split_bps
        },
        enable_reflections: params.enable_reflections,
        reflection_token: if params.enable_reflections {
            params.reflection_token
        } else {
            p.reflection_token
        },
        reflection_vault: if params.enable_reflections {
            a.reflection_vault
        } else {
            p.reflection_vault
        },
        is_initialized: true,
        total_reflection_debt: 0,
        ..p
    }
}

/// What the configuration of a pool reports.
pub open spec fn initialized_event(
    p: Project,
    params: InitializePoolParams,
    a: InitializePoolArgs,
) -> PoolInitialized {
    PoolInitialized {
        project: a.project_key,
        staking_vault: p.staking_vault,
        reward_vault: p.reward_vault,
        reflection_vault: initialized_project(p, params, a).reflection_vault,
        rate_bps_per_year: params.rate_bps_per_year,
        rate_mode: params.rate_mode,
        lockup_seconds: params.lockup_seconds,
        pool_duration_seconds: params.pool_duration_seconds,
        reflections_enabled: params.enable_reflections,
    }
}

/// The rate of a fixed pool never exceeds the annual rate it comes from.
pub proof fn lemma_fixed_rate_bounded(rate_bps: u64)
    ensures
        0 <= fixed_rate(rate_bps) <= rate_bps,
{
    let n = rate_bps * PRECISION;
    assert(n == rate_bps * 1_000_000_000);
    assert(BPS_DENOMINATOR * SECONDS_PER_YEAR == 315_360_000_000);
    assert(fixed_rate(rate_bps) == n / 315_360_000_000);
}

/// Configures a pool, once.
///
/// On failure the pool is unchanged.
pub fn initialize_pool(
    project: &mut Project,
    params: &InitializePoolParams,
    args: &InitializePoolArgs,
) -> (r: Result<PoolInitialized, ErrorCode>)
    ensures
        match initialize_pool_rejection(*old(project), *params, *args) {
            Some(e) => {
                &&& r is Err && r->Err_0 == e
                &&& *final(project) == *old(project)
            },
            None => {
                &&& r is Ok && r->Ok_0 == initialized_event(*old(project), *params, *args)
                &&& *final(project) == initialized_project(*old(project), *params, *args)
            },
        },
        old(project).well_formed() ==> final(project).well_formed(),
{
    if project.admin != args.admin {
        return Err(ErrorCode::Unauthorized);
    }
    if project.is_initialized {
        return Err(ErrorCode::AlreadyInitialized);
    }
    if params.pool_duration_seconds == 0 {
        return Err(ErrorCode::InvalidPoolDuration);
    }
    if project.token_mint != args.token_mint {
        return Err(ErrorCode::WrongTokenType);
    }
    if project.pool_id != args.pool_id {
        return Err(ErrorCode::InvalidProject);
    }
    if params.rate_bps_per_year > MAX_RATE_BPS {
        return Err(ErrorCode::InvalidRateBps);
    }
    match params.referrer_split_bps {
        Some(bps) => {
            if bps > BPS_DENOMINATOR {
                return Err(ErrorCode::InvalidReferrerSplit);
            }
        },
        None => {},
    }
    let end: i128 = args.now as i128 + params.pool_duration_seconds as i128;
    if end > i64::MAX as i128 {
        return Err(ErrorCode::MathOverflow);
    }
    if params.enable_reflections && params.reflection_token.is_none() {
        return Err(ErrorCode::ReflectionTokenRequired);
    }
    if params.enable_reflections && args.reflection_vault.is_none() {
        return Err(ErrorCode::ReflectionVaultRequired);
    }
    let rate = match params.rate_mode {
        RateMode::Fixed => {
            proof {
                lemma_fixed_rate_bounded(params.rate_bps_per_year);
            }
            match mul_div(params.rate_bps_per_year, PRECISION, BPS_DENOMINATOR * SECONDS_PER_YEAR) {
                Ok(rate) => rate,
                Err(_) => {
                    return Err(ErrorCode::AprTooHigh);
                },
            }
        },
        RateMode::Variable => 0,
    };
    project.rate_mode = params.rate_mode;
    project.rate_bps_per_year = params.rate_bps_per_year;
    project.lockup_seconds = params.lockup_seconds;
    project.pool_duration_seconds = params.pool_duration_seconds;
    project.pool_start_time = args.now;
    project.pool_end_time = end as i64;
    project.last_update_time = args.now;
    project.last_reflection_update_time = args.now;
    project.reward_rate_per_second = rate;
    if params.referrer.is_some() {
        project.referrer = params.referrer;
        project.referrer_split_bps = match params.referrer_split_bps {
            Some(bps) => bps,
            None => 0,
        };
    }
    project.enable_reflections = params.enable_reflections;
    if params.enable_reflections {
        project.reflection_token = params.reflection_token;
        project.reflection_vault = args.reflection_vault;
    }
    project.is_initialized = true;
    project.total_reflection_debt = 0;
    Ok(
        PoolInitialized {
            project: args.project_key,
            staking_vault: project.staking_vault,
            reward_vault: project.reward_vault,
            reflection_vault: project.reflection_vault,
            rate_bps_per_year: params.rate_bps_per_year,
            rate_mode: params.rate_mode,
            lockup_seconds: params.lockup_seconds,
            pool_duration_seconds: params.pool_duration_seconds,
            reflections_enabled: params.enable_reflections,
        },
    )
}

/// The rate that spreads the pool's unclaimed rewards evenly over what is
/// left of its lifetime at `now`. A pool at or past its end counts as having
/// one second left.
pub open spec fn spread_rate(p: Project, now: i64) -> int {
    let available = p.total_rewards_deposited - p.total_rewards_claimed;
    let remaining = if p.pool_end_time - now > 1 {
        p.pool_end_time - now
    } else {
        1
    };
    available / remaining
}

/// What a pool emits at the spread rate over what is left of its lifetime
/// is covered by its unclaimed rewards.
pub proof fn lemma_spread_rate_is_covered(p: Project, now: i64)
    requires
        p.total_rewards_deposited >= p.total_rewards_claimed,
    ensures
        0 <= spread_rate(p, now),
        p.pool_end_time - now > 1 ==> spread_rate(p, now) * (p.pool_end_time - now)
            <= p.total_rewards_deposited - p.total_rewards_claimed,
        p.pool_end_time - now <= 1 ==> spread_rate(p, now) == p.total_rewards_deposited
            - p.total_rewards_claimed,
{
    let available = p.total_rewards_deposited - p.total_rewards_claimed;
    let remaining = if p.pool_end_time - now > 1 {
        p.pool_end_time - now
    } else {
        1
    };
    assert(0 <= (available / remaining) * remaining <= available && 0 <= available / remaining)
        by (nonlinear_arith)
        requires
            0 <= available,
            0 < remaining,
    ;
}

/// The pool with its rate set anew at `now`: a variable pool spreads its
/// unclaimed rewards, a fixed pool keeps the rate it has.
pub open spec fn rerated(p: Project, now: i64) -> Project {
    match p.rate_mode {
        RateMode::Fixed => p,
        RateMode::Variable => Project { reward_rate_per_second: spread_rate(p, now) as u64, ..p },
    }
}

/// Whether the pool's rate can be set anew: a variable pool must not have
/// paid out more rewards than were deposited.
pub open spec fn can_rerate(p: Project) -> bool {
    p.rate_mode is Variable ==> p.total_rewards_deposited >= p.total_rewards_claimed
}

/// Sets the pool's rate anew at `now`.
fn rerate(project: &mut Project, now: i64) -> (r: Result<(), ErrorCode>)
    ensures
        can_rerate(*old(project)) ==> {
            &&& r is Ok
            &&& *final(project) == rerated(*old(project), now)
        },
        !can_rerate(*old(project)) ==> {
            &&& r matches Err(ErrorCode::MathOverflow)
            &&& *final(project) == *old(project)
        },
        old(project).well_formed() ==> final(project).well_formed(),
{
    match project.rate_mode {
        RateMode::Fixed => Ok(()),
        RateMode::Variable => {
            let available = match project.total_rewards_deposited.checked_sub(
                project.total_rewards_claimed,
            ) {
                Some(available) => available,
                None => {
                    return Err(ErrorCode::MathOverflow);
                },
            };
            let left: i128 = project.pool_end_time as i128 - now as i128;
            let remaining: u128 = if left > 1 {
                left as u128
            } else {
                1
            };
            let rate: u128 = available as u128 / remaining;
            project.reward_rate_per_second = rate as u64;
            Ok(())
        },
    }
}

/// A request to fund a pool's reward vault.
#[derive(Clone, Copy, Debug, PartialEq, Eq)]
pub struct DepositRewardsArgs {
    /// Who asks.
    pub admin: Address,
    /// The pool's identity.
    pub project_key: Address,
    /// What the admin gives.
    pub amount: u64,
    /// By how much the reward vault's balance grew when the amount was moved
    /// in. It is this that is counted.
    pub received: u64,
    pub now: i64,
}

/// Why a deposit of rewards is rejected before anything is computed, if it
/// is.
pub open spec fn deposit_rewards_rejection(p: Project, a: DepositRewardsArgs) -> Option<
    ErrorCode,
> {
    if p.admin != a.admin {
        Some(ErrorCode::Unauthorized)
    } else if a.amount == 0 {
        Some(ErrorCode::InvalidAmount)
    } else if !p.is_initialized {
        Some(ErrorCode::NotInitialized)
    } else if p.is_paused {
        Some(ErrorCode::ProjectPaused)
    } else {
        None
    }
}

/// Checks a deposit of rewards before anything is moved: only the admin may
/// fund a pool, the amount must not be zero, and the pool must be
/// initialized and not paused.
pub fn check_deposit_rewards(project: &Project, args: &DepositRewardsArgs) -> (r: Result<
    (),
    ErrorCode,
>)
    ensures
        match deposit_rewards_rejection(*project, *args) {
            Some(e) => r is Err && r->Err_0 == e,
            None => r is Ok,
        },
{
    if project.admin != args.admin {
        return Err(ErrorCode::Unauthorized);
    }
    if args.amount == 0 {
        return Err(ErrorCode::InvalidAmount);
    }
    if !project.is_initialized {
        return Err(ErrorCode::NotInitialized);
    }
    if project.is_paused {
        return Err(ErrorCode::ProjectPaused);
    }
    Ok(())
}

/// The pool after `received` rewards have been counted at `now`, before its
/// rate is set anew.
pub open spec fn rewards_counted(p: Project, received: u64, now: i64) -> Project {
    Project {
        total_rewards_deposited: (p.total_rewards_deposited + received) as u64,
        ..accrued(p, now)
    }
}

/// What a deposit of rewards does, or why it fails.
///
/// A request that passes [`deposit_rewards_rejection`] advances the reward
/// accumulator to `now` at the old rate, counts what the vault received,
/// and sets the rate anew.
pub open spec fn deposit_rewards_outcome(p: Project, a: DepositRewardsArgs) -> Result<
    (Project, RewardsDeposited),
    ErrorCode,
> {
    if deposit_rewards_rejection(p, a) is Some {
        Err(deposit_rewards_rejection(p, a)->Some_0)
    } else if !accrual_fits(p, a.now) {
        Err(ErrorCode::MathOverflow)
    } else if p.total_rewards_deposited + a.received > u64::MAX {
        Err(ErrorCode::MathOverflow)
    } else if !can_rerate(rewards_counted(p, a.received, a.now)) {
        Err(ErrorCode::MathOverflow)
    } else {
        Ok(
            (
                rerated(rewards_counted(p, a.received, a.now), a.now),
                RewardsDeposited {
                    project: a.project_key,
                    amount: a.received,
                    total_rewards: (p.total_rewards_deposited + a.received) as u64,
                    reward_rate: rerated(
                        rewards_counted(p, a.received, a.now),
                        a.now,
                    ).reward_rate_per_second,
                },
            ),
        )
    }
}

/// Counts rewards that the admin has moved into the reward vault.
///
/// On failure the pool is unchanged.
pub fn deposit_rewards(project: &mut Project, args: &DepositRewardsArgs) -> (r: Result<
    RewardsDeposited,
    ErrorCode,
>)
    ensures
        match deposit_rewards_outcome(*old(project), *args) {
            Ok((p, event)) => {
                &&& r is Ok && r->Ok_0 == event
                &&& *final(project) == p
            },
            Err(e) => {
                &&& r is Err && r->Err_0 == e
                &&& *final(project) == *old(project)
            },
        },
        old(project).well_formed() ==> final(project).well_formed(),
{
    match check_deposit_rewards(project, args) {
        Ok(()) => {},
        Err(e) => {
            return Err(e);
        },
    }
    let mut pool = *project;
    match accrue_rewards(&mut pool, args.now) {
        Ok(()) => {},
        Err(e) => {
            return Err(e);
        },
    }
    pool.total_rewards_deposited = match pool.total_rewards_deposited.checked_add(args.received) {
        Some(total) => total,
        None => {
            return Err(ErrorCode::MathOverflow);
        },
    };
    match rerate(&mut pool, args.now) {
        Ok(()) => {},
        Err(e) => {
            return Err(e);
        },
    }
    *project = pool;
    Ok(
        RewardsDeposited {
            project: args.project_key,
            amount: args.received,
            total_rewards: pool.total_rewards_deposited,
            reward_rate: pool.reward_rate_per_second,
        },
    )
}

/// A request to change a pool's duration.
#[derive(Clone, Copy, Debug, PartialEq, Eq)]
pub struct SetPoolDurationArgs {
    /// Who asks.
    pub admin: Address,
    /// The pool's identity.
    pub project_key: Address,
    pub duration_seconds: u64,
    pub now: i64,
}

/// The pool with its end moved to `duration` seconds after its start.
pub open spec fn with_duration(p: Project, duration: u64) -> Project {
    Project {
        pool_duration_seconds: duration,
        pool_end_time: (p.pool_start_time + duration) as i64,
        ..p
    }
}

/// What a change of a pool's duration does, or why it fails.
///
/// The request is rejected with `Unauthorized` unless the admin asks and
/// with `InvalidAmount` if the duration is zero. Otherwise the reward
/// accumulator is advanced to `now` under the old end, the end is moved to
/// the new duration after the pool's start, and the rate is set anew.
pub open spec fn set_pool_duration_outcome(p: Project, a: SetPoolDurationArgs) -> Result<
    (Project, PoolDurationUpdated),
    ErrorCode,
> {
    if p.admin != a.admin {
        Err(ErrorCode::Unauthorized)
    } else if a.duration_seconds == 0 {
        Err(ErrorCode::InvalidAmount)
    } else if !accrual_fits(p, a.now) {
        Err(ErrorCode::MathOverflow)
    } else if p.pool_start_time + a.duration_seconds > i64::MAX {
        Err(ErrorCode::MathOverflow)
    } else if !can_rerate(p) {
        Err(ErrorCode::MathOverflow)
    } else {
        Ok(
            (
                rerated(with_duration(accrued(p, a.now), a.duration_seconds), a.now),
                PoolDurationUpdated {
                    project: a.project_key,
                    duration_seconds: a.duration_seconds,
                },
            ),
        )
    }
}

/// Changes a pool's duration, counted from the pool's start.
///
/// On failure the pool is unchanged.
pub fn set_pool_duration(project: &mut Project, args: &SetPoolDurationArgs) -> (r: Result<
    PoolDurationUpdated,
    ErrorCode,
>)
    ensures
        match set_pool_duration_outcome(*old(project), *args) {
            Ok((p, event)) => {
                &&& r is Ok && r->Ok_0 == event
                &&& *final(project) == p
            },
            Err(e) => {
                &&& r is Err && r->Err_0 == e
                &&& *final(project) == *old(project)
            },
        },
        old(project).well_formed() ==> final(project).well_formed(),
{
    if project.admin != args.admin {
        return Err(ErrorCode::Unauthorized);
    }
    if args.duration_seconds == 0 {
        return Err(ErrorCode::InvalidAmount);
    }
    let mut pool = *project;
    match accrue_rewards(&mut pool, args.now) {
        Ok(()) => {},
        Err(e) => {
            return Err(e);
        },
    }
    let end: i128 = pool.pool_start_time as i128 + args.duration_seconds as i128;
    if end > i64::MAX as i128 {
        return Err(ErrorCode::MathOverflow);
    }
    pool.pool_duration_seconds = args.duration_seconds;
    pool.pool_end_time = end as i64;
    match rerate(&mut pool, args.now) {
        Ok(()) => {},
        Err(e) => {
            return Err(e);
        },
    }
    *project = pool;
    Ok(PoolDurationUpdated { project: args.project_key, duration_seconds: args.duration_seconds })
}

} // verus!

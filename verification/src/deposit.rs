//! Depositing principal.
//!
//! Assets are moved by the caller: a deposit is handed what the staking
//! vault received and answers with the fees that are to be moved.

use crate::address::Address;
use crate::errors::ErrorCode;
use crate::events::TokensDeposited;
use crate::fees::{
    affords_flat_fee,
    can_pay_flat_fee,
    quote,
    quote_deposit,
    route_fee,
    routing,
    DepositQuote,
    FeeSplit,
};
use crate::rewards::credited;
use crate::settlement::{
    check_ownership,
    lemma_settlement_as_observed_is_safe,
    lemma_settlement_is_monotonic,
    lemma_settlement_keeps_principal,
    lemma_settlement_moves_markers_up,
    ownership_fault,
    settle,
    settle_as_observed,
    settlement,
    settlement_as_observed,
};
use crate::state::{Platform, Project, Stake};
use vstd::prelude::*;

verus! {

/// A request to deposit principal.
#[derive(Clone, Copy, Debug, PartialEq, Eq)]
pub struct DepositArgs {
    /// Who deposits.
    pub user: Address,
    /// The pool deposited into.
    pub project_key: Address,
    /// The marker to store in a stake that this deposit creates.
    pub stake_bump: u8,
    /// What the user gives, fee included.
    pub amount: u64,
    /// By how much the staking vault's balance grew when the principal was
    /// moved in. It is this, not the amount asked for, that is credited.
    pub received: u64,
    /// The user's balance of the native asset.
    pub payer_balance: u64,
    /// The referrer the caller supplied, if any.
    pub referrer: Option<Address>,
    /// The observed distributable balance of the reflection vault, if the
    /// caller supplied one. A new stake can be opened without it.
    pub reflection_balance: Option<u64>,
    pub now: i64,
}

/// What a deposit asks the caller to move besides the principal.
#[derive(Clone, Copy, Debug, PartialEq, Eq)]
pub struct DepositReceipt {
    pub event: TokensDeposited,
    /// Who receives the fee kept back from the deposit.
    pub token_fee: FeeSplit,
    /// Who receives the flat fee.
    pub sol_fee: FeeSplit,
}

/// The stake of a user who has not deposited yet.
pub open spec fn fresh_stake(user: Address, project_key: Address, bump: u8) -> Stake {
    Stake {
        user,
        project: project_key,
        amount: 0,
        last_stake_timestamp: 0,
        withdrawal_wallet: user,
        reward_per_token_paid: 0,
        rewards_pending: 0,
        total_rewards_claimed: 0,
        reflection_per_token_paid: 0,
        reflections_pending: 0,
        total_reflections_claimed: 0,
        reflection_debt: 0,
        bump,
    }
}

/// The stake a deposit works on: the existing one, or a fresh one.
pub open spec fn deposit_base(existing: Option<Stake>, a: DepositArgs) -> Stake {
    match existing {
        Some(s) => s,
        None => fresh_stake(a.user, a.project_key, a.stake_bump),
    }
}

/// Why a deposit is rejected before anything is settled, if it is.
pub open spec fn deposit_rejection(
    platform: Platform,
    p: Project,
    existing: Option<Stake>,
    a: DepositArgs,
) -> Option<ErrorCode> {
    if a.amount == 0 {
        Some(ErrorCode::InvalidAmount)
    } else if !p.is_initialized {
        Some(ErrorCode::NotInitialized)
    } else if p.is_paused {
        Some(ErrorCode::ProjectPaused)
    } else if p.deposit_paused {
        Some(ErrorCode::DepositsPaused)
    } else if !affords_flat_fee(a.payer_balance, platform.platform_sol_fee) {
        Some(ErrorCode::InsufficientSolForFee)
    } else if a.now >= p.pool_end_time {
        Some(ErrorCode::PoolEnded)
    } else if quote(a.amount, platform.platform_token_fee_bps) is Err {
        Some(ErrorCode::MathOverflow)
    } else if existing is Some {
        ownership_fault(existing->Some_0, a.user, a.project_key)
    } else {
        None
    }
}

/// Checks a deposit before any asset is moved, and gives the principal and
/// the fee that the amount parts into.
///
/// What the vault will receive plays no part in the answer, so the check can
/// be made before it is known.
pub fn check_deposit(
    platform: &Platform,
    project: &Project,
    existing: Option<Stake>,
    args: &DepositArgs,
) -> (r: Result<DepositQuote, ErrorCode>)
    ensures
        match deposit_rejection(*platform, *project, existing, *args) {
            Some(e) => r is Err && r->Err_0 == e,
            None => r == quote(args.amount, platform.platform_token_fee_bps) && r is Ok,
        },
{
    if args.amount == 0 {
        return Err(ErrorCode::InvalidAmount);
    }
    if !project.is_initialized {
        return Err(ErrorCode::NotInitialized);
    }
    if project.is_paused {
        return Err(ErrorCode::ProjectPaused);
    }
    if project.deposit_paused {
        return Err(ErrorCode::DepositsPaused);
    }
    if !can_pay_flat_fee(args.payer_balance, platform.platform_sol_fee) {
        return Err(ErrorCode::InsufficientSolForFee);
    }
    if args.now >= project.pool_end_time {
        return Err(ErrorCode::PoolEnded);
    }
    let parts = match quote_deposit(args.amount, platform.platform_token_fee_bps) {
        Ok(parts) => parts,
        Err(_) => {
            return Err(ErrorCode::MathOverflow);
        },
    };
    match existing {
        Some(stake) => {
            match check_ownership(&stake, &args.user, &args.project_key) {
                Ok(()) => {},
                Err(e) => {
                    return Err(e);
                },
            }
        },
        None => {},
    }
    Ok(parts)
}

/// Pool and stake after `received` has been credited at `now`. A stake that
/// the deposit creates starts from the pool's reflection accumulator, so that
/// it earns nothing of what was distributed before it existed.
pub open spec fn deposit_credited(p: Project, s: Stake, is_new: bool, received: u64, now: i64) -> (
    Project,
    Stake,
) {
    (
        Project { total_staked: (p.total_staked + received) as u64, ..p },
        Stake {
            amount: (s.amount + received) as u64,
            last_stake_timestamp: now,
            reflection_per_token_paid: if is_new {
                p.reflection_per_token_stored
            } else {
                s.reflection_per_token_paid
            },
            ..s
        },
    )
}

/// What a deposit settles before it credits anything. An existing stake is
/// settled in full, which in a pool with reflections needs the observed
/// balance of the reflection vault. A stake that the deposit creates has
/// earned nothing yet: for it the pool's rewards are brought up to `now`, and
/// its reflections too if a balance was observed.
pub open spec fn deposit_settlement(p: Project, existing: Option<Stake>, a: DepositArgs) -> Result<
    (Project, Stake),
    ErrorCode,
> {
    match existing {
        Some(s) => settlement(p, s, a.reflection_balance, a.now),
        None => settlement_as_observed(
            p,
            fresh_stake(a.user, a.project_key, a.stake_bump),
            a.reflection_balance,
            a.now,
        ),
    }
}

/// What a deposit settles touches no principal and lowers nothing, and it
/// leaves the stake's markers behind the pool's accumulators if the
/// reflection marker was behind before.
pub proof fn lemma_deposit_settlement_is_safe(p: Project, existing: Option<Stake>, a: DepositArgs)
    requires
        deposit_settlement(p, existing, a) is Ok,
    ensures
        ({
            let (pool, stake) = deposit_settlement(p, existing, a)->Ok_0;
            let s = deposit_base(existing, a);
            &&& pool.total_staked == p.total_staked
            &&& stake.amount == s.amount
            &&& pool.reward_per_token_stored >= p.reward_per_token_stored
            &&& pool.reflection_per_token_stored >= p.reflection_per_token_stored
            &&& stake.rewards_pending >= s.rewards_pending
            &&& stake.reflections_pending >= s.reflections_pending
            &&& stake.reward_per_token_paid == pool.reward_per_token_stored
            &&& s.reflection_per_token_paid <= p.reflection_per_token_stored
                ==> stake.reflection_per_token_paid <= pool.reflection_per_token_stored
        }),
{
    match existing {
        Some(s) => {
            lemma_settlement_keeps_principal(p, s, a.reflection_balance, a.now);
            lemma_settlement_is_monotonic(p, s, a.reflection_balance, a.now);
            if s.reflection_per_token_paid <= p.reflection_per_token_stored {
                lemma_settlement_moves_markers_up(p, s, a.reflection_balance, a.now);
            }
        },
        None => {
            lemma_settlement_as_observed_is_safe(
                p,
                fresh_stake(a.user, a.project_key, a.stake_bump),
                a.reflection_balance,
                a.now,
            );
        },
    }
}

/// What a deposit does, or why it fails.
///
/// A request that passes [`deposit_rejection`] is settled as
/// [`deposit_settlement`] says, on the existing stake or on a fresh one.
/// What the vault received is then added to the stake and to the pool's
/// total, and the lockup starts anew. Last, the fee kept back from the
/// deposit and the flat fee are routed.
pub open spec fn deposit_outcome(
    platform: Platform,
    p: Project,
    existing: Option<Stake>,
    a: DepositArgs,
) -> Result<(Project, Stake, DepositReceipt), ErrorCode> {
    if deposit_rejection(platform, p, existing, a) is Some {
        Err(deposit_rejection(platform, p, existing, a)->Some_0)
    } else {
        match deposit_settlement(p, existing, a) {
            Err(e) => Err(e),
            Ok((pool, stake)) => {
                let fee = quote(a.amount, platform.platform_token_fee_bps)->Ok_0.fee;
                let token_fee = routing(fee, pool.referrer, pool.referrer_split_bps, a.referrer);
                let sol_fee = routing(
                    platform.platform_sol_fee,
                    pool.referrer,
                    pool.referrer_split_bps,
                    a.referrer,
                );
                let after = deposit_credited(pool, stake, existing is None, a.received, a.now);
                if stake.amount + a.received > u64::MAX || pool.total_staked + a.received
                    > u64::MAX {
                    Err(ErrorCode::MathOverflow)
                } else if token_fee is Err {
                    Err(token_fee->Err_0)
                } else if sol_fee is Err {
                    Err(sol_fee->Err_0)
                } else {
                    Ok(
                        (
                            after.0,
                            after.1,
                            DepositReceipt {
                                event: TokensDeposited {
                                    user: a.user,
                                    project: a.project_key,
                                    amount: a.received,
                                    token_fee: fee,
                                    sol_fee: platform.platform_sol_fee,
                                    new_total: after.1.amount,
                                },
                                token_fee: token_fee->Ok_0,
                                sol_fee: sol_fee->Ok_0,
                            },
                        ),
                    )
                }
            },
        }
    }
}

/// Deposits principal into a pool, on the user's stake if there is one and
/// on a new one otherwise.
///
/// Before the call the caller has moved the principal that
/// [`check_deposit`] gives for `amount` into the staking vault and has
/// measured what arrived. On success the caller is handed the stake as it is
/// now and moves the fees as the receipt says. On failure the pool is
/// unchanged.
pub fn deposit(
    platform: &Platform,
    project: &mut Project,
    existing: Option<Stake>,
    args: &DepositArgs,
) -> (r: Result<(Stake, DepositReceipt), ErrorCode>)
    ensures
        match deposit_outcome(*platform, *old(project), existing, *args) {
            Ok((p, s, receipt)) => {
                &&& r is Ok && r->Ok_0 == (s, receipt)
                &&& *final(project) == p
            },
            Err(e) => {
                &&& r is Err && r->Err_0 == e
                &&& *final(project) == *old(project)
            },
        },
        old(project).well_formed() ==> final(project).well_formed(),
{
    let parts = match check_deposit(platform, project, existing, args) {
        Ok(parts) => parts,
        Err(e) => {
            return Err(e);
        },
    };
    let is_new = existing.is_none();
    let mut position = match existing {
        Some(stake) => stake,
        None => Stake {
            user: args.user,
            project: args.project_key,
            amount: 0,
            last_stake_timestamp: 0,
            withdrawal_wallet: args.user,
            reward_per_token_paid: 0,
            rewards_pending: 0,
            total_rewards_claimed: 0,
            reflection_per_token_paid: 0,
            reflections_pending: 0,
            total_reflections_claimed: 0,
            reflection_debt: 0,
            bump: args.stake_bump,
        },
    };
    let mut pool = *project;
    let settled = if is_new {
        settle_as_observed(&mut pool, &mut position, args.reflection_balance, args.now)
    } else {
        settle(&mut pool, &mut position, args.reflection_balance, args.now)
    };
    match settled {
        Ok(()) => {},
        Err(e) => {
            return Err(e);
        },
    }
    let amount = match position.amount.checked_add(args.received) {
        Some(amount) => amount,
        None => {
            return Err(ErrorCode::MathOverflow);
        },
    };
    let total = match pool.total_staked.checked_add(args.received) {
        Some(total) => total,
        None => {
            return Err(ErrorCode::MathOverflow);
        },
    };
    let token_fee = match route_fee(
        parts.fee,
        pool.referrer,
        pool.referrer_split_bps,
        args.referrer,
    ) {
        Ok(split) => split,
        Err(e) => {
            return Err(e);
        },
    };
    let sol_fee = match route_fee(
        platform.platform_sol_fee,
        pool.referrer,
        pool.referrer_split_bps,
        args.referrer,
    ) {
        Ok(split) => split,
        Err(e) => {
            return Err(e);
        },
    };
    if is_new {
        position.reflection_per_token_paid = pool.reflection_per_token_stored;
    }
    position.amount = amount;
    position.last_stake_timestamp = args.now;
    pool.total_staked = total;
    *project = pool;
    Ok(
        (
            position,
            DepositReceipt {
                event: TokensDeposited {
                    user: args.user,
                    project: args.project_key,
                    amount: args.received,
                    token_fee: parts.fee,
                    sol_fee: platform.platform_sol_fee,
                    new_total: amount,
                },
                token_fee,
                sol_fee,
            },
        ),
    )
}

/// What a deposit credits: exactly what the vault received, to the stake and
/// to the pool's total alike. What the user gave is parted without loss into
/// the principal asked for and the fee, and the fee without loss between
/// collector and referrer.
pub proof fn lemma_deposit_credits_what_arrived(
    platform: Platform,
    p: Project,
    existing: Option<Stake>,
    a: DepositArgs,
)
    requires
        deposit_outcome(platform, p, existing, a) is Ok,
    ensures
        ({
            let (pool, stake, receipt) = deposit_outcome(platform, p, existing, a)->Ok_0;
            let parts = quote(a.amount, platform.platform_token_fee_bps);
            &&& stake.amount == deposit_base(existing, a).amount + a.received
            &&& pool.total_staked == p.total_staked + a.received
            &&& parts is Ok
            &&& parts->Ok_0.net + parts->Ok_0.fee == a.amount
            &&& receipt.token_fee.collector + receipt.token_fee.referrer == parts->Ok_0.fee
            &&& receipt.sol_fee.collector + receipt.sol_fee.referrer == platform.platform_sol_fee
        }),
{
    lemma_deposit_settlement_is_safe(p, existing, a);
}

} // verus!

//! Claiming what a stake has earned: rewards and reflections.
//!
//! Assets are moved by the caller: a claim is handed the balance the caller
//! observed in the vault and answers with what is to be moved.

use crate::address::Address;
use crate::errors::ErrorCode;
use crate::events::{ReflectionsClaimed, RewardsClaimed};
use crate::reflections::{reflection_outcome, update_reflection_internal};
use crate::settlement::{
    check_ownership,
    ownership_fault,
    settle,
    settle_as_observed,
    settlement,
    settlement_as_observed,
};
use crate::state::{Project, Stake};
use vstd::prelude::*;

verus! {

/// A request to be paid one's pending rewards.
#[derive(Clone, Copy, Debug, PartialEq, Eq)]
pub struct ClaimArgs {
    /// Who asks.
    pub user: Address,
    /// The pool the stake is said to belong to.
    pub project_key: Address,
    /// The observed balance of the reward vault.
    pub vault_balance: u64,
    /// The observed distributable balance of the reflection vault, if the
    /// caller supplied one. Without it rewards alone are settled.
    pub reflection_balance: Option<u64>,
    pub now: i64,
}

/// Why a claim is rejected before anything is settled, if it is.
pub open spec fn claim_rejection(p: Project, s: Stake, a: ClaimArgs) -> Option<ErrorCode> {
    if ownership_fault(s, a.user, a.project_key) is Some {
        ownership_fault(s, a.user, a.project_key)
    } else if !p.is_initialized {
        Some(ErrorCode::NotInitialized)
    } else if p.is_paused {
        Some(ErrorCode::ProjectPaused)
    } else if p.claim_paused {
        Some(ErrorCode::ClaimsPaused)
    } else {
        None
    }
}

/// What a claim does, or why it fails.
///
/// A request that passes [`claim_rejection`] is settled: rewards always, and
/// reflections as well if the caller observed the reflection vault, as
/// [`settlement_as_observed`] says. It is then rejected
/// with `NoRewards` if nothing is pending and with `InsufficientRewardVault`
/// if the vault holds less than what is pending. Otherwise all of it is paid:
/// the pending rewards become zero and are added to what stake and pool have
/// claimed so far.
pub open spec fn claim_outcome(p: Project, s: Stake, a: ClaimArgs) -> Result<
    (Project, Stake, RewardsClaimed),
    ErrorCode,
> {
    if claim_rejection(p, s, a) is Some {
        Err(claim_rejection(p, s, a)->Some_0)
    } else {
        match settlement_as_observed(p, s, a.reflection_balance, a.now) {
            Err(e) => Err(e),
            Ok((pool, stake)) => {
                let rewards = stake.rewards_pending;
                if rewards == 0 {
                    Err(ErrorCode::NoRewards)
                } else if a.vault_balance < rewards {
                    Err(ErrorCode::InsufficientRewardVault)
                } else if stake.total_rewards_claimed + rewards > u64::MAX
                    || pool.total_rewards_claimed + rewards > u64::MAX {
                    Err(ErrorCode::MathOverflow)
                } else {
                    Ok(
                        (
                            Project {
                                total_rewards_claimed: (pool.total_rewards_claimed
                                    + rewards) as u64,
                                ..pool
                            },
                            Stake {
                                rewards_pending: 0,
                                total_rewards_claimed: (stake.total_rewards_claimed
                                    + rewards) as u64,
                                ..stake
                            },
                            RewardsClaimed {
                                user: a.user,
                                project: a.project_key,
                                amount: rewards,
                            },
                        ),
                    )
                }
            },
        }
    }
}

/// Pays out a stake's pending rewards.
///
/// A stake need not hold principal to be paid what it has earned, and the
/// caller need not have observed the reflection vault. On success
/// the caller moves the event's amount from the reward vault to the user. On
/// failure pool and stake are unchanged.
pub fn claim(project: &mut Project, stake: &mut Stake, args: &ClaimArgs) -> (r: Result<
    RewardsClaimed,
    ErrorCode,
>)
    ensures
        match claim_outcome(*old(project), *old(stake), *args) {
            Ok((p, s, event)) => {
                &&& r is Ok && r->Ok_0 == event
                &&& *final(project) == p
                &&& *final(stake) == s
            },
            Err(e) => {
                &&& r is Err && r->Err_0 == e
                &&& *final(project) == *old(project)
                &&& *final(stake) == *old(stake)
            },
        },
        old(project).well_formed() ==> final(project).well_formed(),
{
    match check_ownership(stake, &args.user, &args.project_key) {
        Ok(()) => {},
        Err(e) => {
            return Err(e);
        },
    }
    if !project.is_initialized {
        return Err(ErrorCode::NotInitialized);
    }
    if project.is_paused {
        return Err(ErrorCode::ProjectPaused);
    }
    if project.claim_paused {
        return Err(ErrorCode::ClaimsPaused);
    }
    let mut pool = *project;
    let mut position = *stake;
    match settle_as_observed(&mut pool, &mut position, args.reflection_balance, args.now) {
        Ok(()) => {},
        Err(e) => {
            return Err(e);
        },
    }
    let rewards = position.rewards_pending;
    if rewards == 0 {
        return Err(ErrorCode::NoRewards);
    }
    if args.vault_balance < rewards {
        return Err(ErrorCode::InsufficientRewardVault);
    }
    let claimed_by_stake = match position.total_rewards_claimed.checked_add(rewards) {
        Some(sum) => sum,
        None => {
            return Err(ErrorCode::MathOverflow);
        },
    };
    let claimed_in_pool = match pool.total_rewards_claimed.checked_add(rewards) {
        Some(sum) => sum,
        None => {
            return Err(ErrorCode::MathOverflow);
        },
    };
    position.rewards_pending = 0;
    position.total_rewards_claimed = claimed_by_stake;
    pool.total_rewards_claimed = claimed_in_pool;
    *project = pool;
    *stake = position;
    Ok(RewardsClaimed { user: args.user, project: args.project_key, amount: rewards })
}

/// A request to be paid one's pending reflections.
#[derive(Clone, Copy, Debug, PartialEq, Eq)]
pub struct ClaimReflectionsArgs {
    /// Who asks.
    pub user: Address,
    /// The pool the stake is said to belong to.
    pub project_key: Address,
    /// The vault the caller supplied to pay from.
    pub vault: Address,
    /// The observed distributable balance of that vault.
    pub vault_balance: u64,
    pub now: i64,
}

/// Why a claim of reflections is rejected before anything is settled, if it
/// is.
pub open spec fn claim_reflections_rejection(p: Project, s: Stake, a: ClaimReflectionsArgs)
    -> Option<ErrorCode> {
    if ownership_fault(s, a.user, a.project_key) is Some {
        ownership_fault(s, a.user, a.project_key)
    } else if !p.is_initialized {
        Some(ErrorCode::NotInitialized)
    } else if p.is_paused {
        Some(ErrorCode::ProjectPaused)
    } else if !p.enable_reflections {
        Some(ErrorCode::ReflectionsNotEnabled)
    } else if p.reflection_token is None {
        Some(ErrorCode::ReflectionTokenRequired)
    } else if p.reflection_vault != Some(a.vault) {
        Some(ErrorCode::InvalidReflectionVault)
    } else {
        None
    }
}

/// What a claim of reflections does, or why it fails.
///
/// A request that passes [`claim_reflections_rejection`] is settled against
/// the observed balance. It is then rejected with `NoReflections` if nothing
/// is pending and with `InsufficientReflectionVault` if the vault holds less
/// than what is pending. Otherwise all of it is paid: the pending
/// reflections become zero and are added to what the stake has claimed so
/// far, and the pool's baseline becomes the balance that the vault has once
/// the payout has left.
pub open spec fn claim_reflections_outcome(p: Project, s: Stake, a: ClaimReflectionsArgs)
    -> Result<(Project, Stake, ReflectionsClaimed), ErrorCode> {
    if claim_reflections_rejection(p, s, a) is Some {
        Err(claim_reflections_rejection(p, s, a)->Some_0)
    } else {
        match settlement(p, s, Some(a.vault_balance), a.now) {
            Err(e) => Err(e),
            Ok((pool, stake)) => {
                let payout = stake.reflections_pending;
                if payout == 0 {
                    Err(ErrorCode::NoReflections)
                } else if a.vault_balance < payout {
                    Err(ErrorCode::InsufficientReflectionVault)
                } else if stake.total_reflections_claimed + payout > u64::MAX {
                    Err(ErrorCode::MathOverflow)
                } else {
                    Ok(
                        (
                            Project {
                                last_reflection_balance: (a.vault_balance - payout) as u64,
                                ..pool
                            },
                            Stake {
                                reflections_pending: 0,
                                total_reflections_claimed: (stake.total_reflections_claimed
                                    + payout) as u64,
                                ..stake
                            },
                            ReflectionsClaimed {
                                user: a.user,
                                project: a.project_key,
                                amount: payout,
                            },
                        ),
                    )
                }
            },
        }
    }
}

/// Pays out a stake's pending reflections.
///
/// A stake need not hold principal to be paid what it has earned. On success
/// the caller moves the event's amount from the reflection vault to the
/// user. On failure pool and stake are unchanged.
pub fn claim_reflections(project: &mut Project, stake: &mut Stake, args: &ClaimReflectionsArgs)
    -> (r: Result<ReflectionsClaimed, ErrorCode>)
    ensures
        match claim_reflections_outcome(*old(project), *old(stake), *args) {
            Ok((p, s, event)) => {
                &&& r is Ok && r->Ok_0 == event
                &&& *final(project) == p
                &&& *final(stake) == s
            },
            Err(e) => {
                &&& r is Err && r->Err_0 == e
                &&& *final(project) == *old(project)
                &&& *final(stake) == *old(stake)
            },
        },
        old(project).well_formed() ==> final(project).well_formed(),
{
    match check_ownership(stake, &args.user, &args.project_key) {
        Ok(()) => {},
        Err(e) => {
            return Err(e);
        },
    }
    if !project.is_initialized {
        return Err(ErrorCode::NotInitialized);
    }
    if project.is_paused {
        return Err(ErrorCode::ProjectPaused);
    }
    if !project.enable_reflections {
        return Err(ErrorCode::ReflectionsNotEnabled);
    }
    if project.reflection_token.is_none() {
        return Err(ErrorCode::ReflectionTokenRequired);
    }
    if project.reflection_vault != Some(args.vault) {
        return Err(ErrorCode::InvalidReflectionVault);
    }
    let mut pool = *project;
    let mut position = *stake;
    match settle(&mut pool, &mut position, Some(args.vault_balance), args.now) {
        Ok(()) => {},
        Err(e) => {
            return Err(e);
        },
    }
    let payout = position.reflections_pending;
    if payout == 0 {
        return Err(ErrorCode::NoReflections);
    }
    if args.vault_balance < payout {
        return Err(ErrorCode::InsufficientReflectionVault);
    }
    let claimed = match position.total_reflections_claimed.checked_add(payout) {
        Some(sum) => sum,
        None => {
            return Err(ErrorCode::MathOverflow);
        },
    };
    position.reflections_pending = 0;
    position.total_reflections_claimed = claimed;
    pool.last_reflection_balance = args.vault_balance - payout;
    *project = pool;
    *stake = position;
    Ok(ReflectionsClaimed { user: args.user, project: args.project_key, amount: payout })
}

/// Why a refresh of reflections is rejected before anything is settled, if
/// it is.
pub open spec fn refresh_rejection(p: Project, s: Stake, user: Address, project_key: Address)
    -> Option<ErrorCode> {
    if ownership_fault(s, user, project_key) is Some {
        ownership_fault(s, user, project_key)
    } else if s.amount == 0 {
        Some(ErrorCode::NoStake)
    } else if !p.is_initialized {
        Some(ErrorCode::NotInitialized)
    } else if !p.enable_reflections {
        Some(ErrorCode::ReflectionsNotEnabled)
    } else if p.reflection_token is None {
        Some(ErrorCode::ReflectionTokenRequired)
    } else {
        None
    }
}

/// What a refresh of reflections does, or why it fails: it settles
/// reflections as a claim would, marker included, and pays nothing.
pub open spec fn refresh_outcome(
    p: Project,
    s: Stake,
    user: Address,
    project_key: Address,
    vault_balance: u64,
    now: i64,
) -> Result<(Project, Stake), ErrorCode> {
    if refresh_rejection(p, s, user, project_key) is Some {
        Err(refresh_rejection(p, s, user, project_key)->Some_0)
    } else {
        reflection_outcome(p, s, Some(vault_balance), now, true)
    }
}

/// Brings a stake's pending reflections up to date without paying them.
///
/// `vault_balance` is the observed distributable balance of the reflection
/// vault. On failure pool and stake are unchanged.
pub fn refresh_reflections(
    project: &mut Project,
    stake: &mut Stake,
    user: &Address,
    project_key: &Address,
    vault_balance: u64,
    now: i64,
) -> (r: Result<(), ErrorCode>)
    ensures
        match refresh_outcome(*old(project), *old(stake), *user, *project_key, vault_balance, now) {
            Ok((p, s)) => {
                &&& r is Ok
                &&& *final(project) == p
                &&& *final(stake) == s
            },
            Err(e) => {
                &&& r is Err && r->Err_0 == e
                &&& *final(project) == *old(project)
                &&& *final(stake) == *old(stake)
            },
        },
        old(project).well_formed() ==> final(project).well_formed(),
{
    match check_ownership(stake, user, project_key) {
        Ok(()) => {},
        Err(e) => {
            return Err(e);
        },
    }
    if stake.amount == 0 {
        return Err(ErrorCode::NoStake);
    }
    if !project.is_initialized {
        return Err(ErrorCode::NotInitialized);
    }
    if !project.enable_reflections {
        return Err(ErrorCode::ReflectionsNotEnabled);
    }
    if project.reflection_token.is_none() {
        return Err(ErrorCode::ReflectionTokenRequired);
    }
    update_reflection_internal(project, stake, Some(vault_balance), now, true)
}

} // verus!

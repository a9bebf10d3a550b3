//! Withdrawing principal: by the user once the lockup has run out, or by
//! the pool's admin at any time.
//!
//! Assets are moved by the caller: a withdrawal is handed the balance the
//! caller observed in the staking vault and answers with what is to be
//! moved.

use crate::address::Address;
use crate::errors::ErrorCode;
use crate::events::{EmergencyStakeReturned, TokensWithdrawn};
use crate::rewards::{accrued, credited, reward_settlement_fits, update_reward};
use crate::settlement::{
    check_ownership,
    lemma_settlement_keeps_principal,
    ownership_fault,
    settle,
    settlement,
};
use crate::state::{Project, Stake};
use vstd::prelude::*;

verus! {

/// Whether the lockup of a stake has run out at `now`.
pub open spec fn lockup_expired(p: Project, s: Stake, now: i64) -> bool {
    now - s.last_stake_timestamp >= p.lockup_seconds
}

fn is_lockup_expired(project: &Project, stake: &Stake, now: i64) -> (r: bool)
    ensures
        r == lockup_expired(*project, *stake, now),
{
    let staked_for: i128 = now as i128 - stake.last_stake_timestamp as i128;
    staked_for >= project.lockup_seconds as i128
}

/// A request to withdraw principal.
#[derive(Clone, Copy, Debug, PartialEq, Eq)]
pub struct WithdrawArgs {
    /// Who asks.
    pub user: Address,
    /// The pool the stake is said to belong to.
    pub project_key: Address,
    /// The owner of the account the principal is to be sent to.
    pub destination: Address,
    pub amount: u64,
    /// The observed balance of the staking vault.
    pub vault_balance: u64,
    /// The observed distributable balance of the reflection vault, if the
    /// caller supplied one.
    pub reflection_balance: Option<u64>,
    pub now: i64,
}

/// Why a withdrawal is rejected before anything is settled, if it is.
pub open spec fn withdraw_rejection(p: Project, s: Stake, a: WithdrawArgs) -> Option<ErrorCode> {
    if ownership_fault(s, a.user, a.project_key) is Some {
        ownership_fault(s, a.user, a.project_key)
    } else if a.destination != s.withdrawal_wallet {
        Some(ErrorCode::InvalidWithdrawalWallet)
    } else if !p.is_initialized {
        Some(ErrorCode::NotInitialized)
    } else if p.is_paused {
        Some(ErrorCode::ProjectPaused)
    } else if p.withdraw_paused {
        Some(ErrorCode::WithdrawalsPaused)
    } else if a.amount == 0 {
        Some(ErrorCode::InvalidAmount)
    } else if s.amount < a.amount {
        Some(ErrorCode::InsufficientBalance)
    } else if a.vault_balance < a.amount {
        Some(ErrorCode::InsufficientVaultBalance)
    } else {
        None
    }
}

/// What a withdrawal does, or why it fails.
///
/// A request that passes [`withdraw_rejection`] is settled. It is then
/// rejected with `LockupNotExpired` unless the lockup has run out, and with
/// `InconsistentTotalStaked` if the pool's total is less than the amount.
/// Otherwise the amount leaves both the stake and the pool's total.
pub open spec fn withdraw_outcome(p: Project, s: Stake, a: WithdrawArgs) -> Result<
    (Project, Stake, TokensWithdrawn),
    ErrorCode,
> {
    if withdraw_rejection(p, s, a) is Some {
        Err(withdraw_rejection(p, s, a)->Some_0)
    } else {
        match settlement(p, s, a.reflection_balance, a.now) {
            Err(e) => Err(e),
            Ok((pool, stake)) => {
                if !lockup_expired(pool, stake, a.now) {
                    Err(ErrorCode::LockupNotExpired)
                } else if pool.total_staked < a.amount {
                    Err(ErrorCode::InconsistentTotalStaked)
                } else {
                    Ok(
                        (
                            Project { total_staked: (pool.total_staked - a.amount) as u64, ..pool },
                            Stake { amount: (stake.amount - a.amount) as u64, ..stake },
                            TokensWithdrawn {
                                user: a.user,
                                project: a.project_key,
                                amount: a.amount,
                                remaining: (stake.amount - a.amount) as u64,
                            },
                        ),
                    )
                }
            },
        }
    }
}

/// Withdraws principal from a stake.
///
/// On success the caller moves `amount` from the staking vault to the
/// account of `destination`. On failure pool and stake are unchanged.
pub fn withdraw(project: &mut Project, stake: &mut Stake, args: &WithdrawArgs) -> (r: Result<
    TokensWithdrawn,
    ErrorCode,
>)
    ensures
        match withdraw_outcome(*old(project), *old(stake), *args) {
            Ok((p, s, event)) => {
                &&& r is Ok && r->Ok_0 == event
                &&& *final(project) == p
                &&& *final(stake) == s
            },
            Err(e) => {
                &&& r is Err && r->Err_0 == e
                &&& *final(project) == *old(project)
                &&& *final(stake) == *old(stake)
            },
        },
        old(project).well_formed() ==> final(project).well_formed(),
{
    match check_ownership(stake, &args.user, &args.project_key) {
        Ok(()) => {},
        Err(e) => {
            return Err(e);
        },
    }
    if args.destination != stake.withdrawal_wallet {
        return Err(ErrorCode::InvalidWithdrawalWallet);
    }
    if !project.is_initialized {
        return Err(ErrorCode::NotInitialized);
    }
    if project.is_paused {
        return Err(ErrorCode::ProjectPaused);
    }
    if project.withdraw_paused {
        return Err(ErrorCode::WithdrawalsPaused);
    }
    if args.amount == 0 {
        return Err(ErrorCode::InvalidAmount);
    }
    if stake.amount < args.amount {
        return Err(ErrorCode::InsufficientBalance);
    }
    if args.vault_balance < args.amount {
        return Err(ErrorCode::InsufficientVaultBalance);
    }
    let mut pool = *project;
    let mut position = *stake;
    match settle(&mut pool, &mut position, args.reflection_balance, args.now) {
        Ok(()) => {},
        Err(e) => {
            return Err(e);
        },
    }
    if !is_lockup_expired(&pool, &position, args.now) {
        return Err(ErrorCode::LockupNotExpired);
    }
    if pool.total_staked < args.amount {
        return Err(ErrorCode::InconsistentTotalStaked);
    }
    position.amount = position.amount - args.amount;
    pool.total_staked = pool.total_staked - args.amount;
    *project = pool;
    *stake = position;
    Ok(
        TokensWithdrawn {
            user: args.user,
            project: args.project_key,
            amount: args.amount,
            remaining: position.amount,
        },
    )
}

/// The lockup gate: a withdrawal one second before the lockup runs out is
/// rejected, and one at the second it runs out is not held back by the
/// lockup. If nothing else stands in its way, the first fails with
/// `LockupNotExpired` and the second succeeds.
pub proof fn lemma_lockup_gate(p: Project, s: Stake, early: WithdrawArgs, due: WithdrawArgs)
    requires
        early.now == s.last_stake_timestamp + p.lockup_seconds - 1,
        due.now == s.last_stake_timestamp + p.lockup_seconds,
    ensures
        ({
            let too_early = withdraw_outcome(p, s, early);
            let in_time = withdraw_outcome(p, s, due);
            &&& too_early is Err
            &&& withdraw_rejection(p, s, early) is None && settlement(
                p,
                s,
                early.reflection_balance,
                early.now,
            ) is Ok ==> (too_early matches Err(ErrorCode::LockupNotExpired))
            &&& !(in_time matches Err(ErrorCode::LockupNotExpired))
            &&& withdraw_rejection(p, s, due) is None && settlement(
                p,
                s,
                due.reflection_balance,
                due.now,
            ) is Ok && p.total_staked >= due.amount ==> in_time is Ok
        }),
{
    if settlement(p, s, early.reflection_balance, early.now) is Ok {
        lemma_settlement_keeps_principal(p, s, early.reflection_balance, early.now);
    }
    if settlement(p, s, due.reflection_balance, due.now) is Ok {
        lemma_settlement_keeps_principal(p, s, due.reflection_balance, due.now);
    }
}

/// A withdrawal is held back by the lockup exactly as long as the stake's
/// last deposit is less than the lockup ago.
pub proof fn lemma_lockup_rejects_exactly_when_locked(p: Project, s: Stake, a: WithdrawArgs)
    requires
        withdraw_rejection(p, s, a) is None,
        settlement(p, s, a.reflection_balance, a.now) is Ok,
    ensures
        (withdraw_outcome(p, s, a) matches Err(ErrorCode::LockupNotExpired)) <==> a.now
            - s.last_stake_timestamp
            < p.lockup_seconds,
{
    lemma_settlement_keeps_principal(p, s, a.reflection_balance, a.now);
}

/// A request of a pool's admin to return a user's whole principal.
#[derive(Clone, Copy, Debug, PartialEq, Eq)]
pub struct EmergencyReturnArgs {
    /// Who asks.
    pub admin: Address,
    /// The user whose stake is to be returned.
    pub user: Address,
    /// The pool.
    pub project_key: Address,
    /// The owner of the account the principal is to be sent to.
    pub destination: Address,
    /// The observed balance of the staking vault.
    pub vault_balance: u64,
    pub now: i64,
}

/// Why an emergency return is rejected before anything is settled, if it is.
pub open spec fn emergency_return_rejection(p: Project, s: Stake, a: EmergencyReturnArgs)
    -> Option<ErrorCode> {
    if p.admin != a.admin {
        Some(ErrorCode::Unauthorized)
    } else if s.user != a.user {
        Some(ErrorCode::InvalidStakeAccount)
    } else if a.destination != s.withdrawal_wallet {
        Some(ErrorCode::InvalidWithdrawalWallet)
    } else if s.amount == 0 {
        Some(ErrorCode::NoStake)
    } else if a.vault_balance < s.amount {
        Some(ErrorCode::InsufficientVaultBalance)
    } else {
        None
    }
}

/// What an emergency return does, or why it fails.
///
/// A request that passes [`emergency_return_rejection`] settles rewards.
/// Then the whole principal leaves the stake and the pool's total, whatever
/// the lockup says; a total below the principal is a `MathOverflow`.
pub open spec fn emergency_return_outcome(p: Project, s: Stake, a: EmergencyReturnArgs) -> Result<
    (Project, Stake, EmergencyStakeReturned),
    ErrorCode,
> {
    if emergency_return_rejection(p, s, a) is Some {
        Err(emergency_return_rejection(p, s, a)->Some_0)
    } else if !reward_settlement_fits(p, s, a.now) {
        Err(ErrorCode::MathOverflow)
    } else if p.total_staked < s.amount {
        Err(ErrorCode::MathOverflow)
    } else {
        Ok(
            (
                Project { total_staked: (p.total_staked - s.amount) as u64, ..accrued(p, a.now) },
                Stake { amount: 0, ..credited(s, accrued(p, a.now).reward_per_token_stored) },
                EmergencyStakeReturned { project: a.project_key, user: a.user, amount: s.amount },
            ),
        )
    }
}

/// Returns a user's whole principal at the admin's request, lockup or not.
///
/// On success the caller moves the event's amount from the staking vault to
/// the account of `destination`. On failure pool and stake are unchanged.
pub fn emergency_return_stake(project: &mut Project, stake: &mut Stake, args: &EmergencyReturnArgs)
    -> (r: Result<EmergencyStakeReturned, ErrorCode>)
    ensures
        match emergency_return_outcome(*old(project), *old(stake), *args) {
            Ok((p, s, event)) => {
                &&& r is Ok && r->Ok_0 == event
                &&& *final(project) == p
                &&& *final(stake) == s
            },
            Err(e) => {
                &&& r is Err && r->Err_0 == e
                &&& *final(project) == *old(project)
                &&& *final(stake) == *old(stake)
            },
        },
        old(project).well_formed() ==> final(project).well_formed(),
{
    if project.admin != args.admin {
        return Err(ErrorCode::Unauthorized);
    }
    if stake.user != args.user {
        return Err(ErrorCode::InvalidStakeAccount);
    }
    if args.destination != stake.withdrawal_wallet {
        return Err(ErrorCode::InvalidWithdrawalWallet);
    }
    if stake.amount == 0 {
        return Err(ErrorCode::NoStake);
    }
    if args.vault_balance < stake.amount {
        return Err(ErrorCode::InsufficientVaultBalance);
    }
    let mut pool = *project;
    let mut position = *stake;
    match update_reward(&mut pool, &mut position, args.now) {
        Ok(()) => {},
        Err(e) => {
            return Err(e);
        },
    }
    let amount = position.amount;
    let total = match pool.total_staked.checked_sub(amount) {
        Some(total) => total,
        None => {
            return Err(ErrorCode::MathOverflow);
        },
    };
    position.amount = 0;
    pool.total_staked = total;
    *project = pool;
    *stake = position;
    Ok(EmergencyStakeReturned { project: args.project_key, user: args.user, amount })
}

} // verus!

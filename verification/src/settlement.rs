//! Settlement: bringing a pool and a stake up to the present.
//!
//! Every operation of the ledger settles rewards and reflections first, so
//! that what was earned under the old principal is credited before the
//! principal changes. A claim of rewards and a deposit that opens a stake
//! get by without the reflection vault: they settle reflections only if its
//! balance was observed.

use crate::address::Address;
use crate::errors::ErrorCode;
use crate::reflections::{
    lemma_reflection_settlement_is_idempotent,
    lemma_reflection_settlement_is_monotonic,
    reflection_outcome,
    update_reflection,
};
use crate::rewards::{
    accrued,
    credited,
    lemma_accrual_is_monotonic,
    lemma_credit_is_monotonic,
    lemma_no_accrual_past_end,
    lemma_no_time_no_accrual,
    lemma_reward_settlement_is_idempotent,
    reward_settlement_fits,
    update_reward,
};
use crate::state::{Project, Stake};
use vstd::prelude::*;

verus! {

/// What settling rewards and then reflections does to pool and stake, or why
/// it fails.
pub open spec fn settlement(p: Project, s: Stake, reflection_balance: Option<u64>, now: i64)
    -> Result<(Project, Stake), ErrorCode> {
    if !reward_settlement_fits(p, s, now) {
        Err(ErrorCode::MathOverflow)
    } else {
        reflection_outcome(
            accrued(p, now),
            credited(s, accrued(p, now).reward_per_token_stored),
            reflection_balance,
            now,
            true,
        )
    }
}

/// Settles rewards at `now` and reflections against the observed balance of
/// the reflection vault.
///
/// Whether it succeeds or fails, nothing is lowered: neither accumulator of
/// the pool, and neither pending balance of the stake. On failure pool and
/// stake are unchanged.
pub fn settle(project: &mut Project, stake: &mut Stake, reflection_balance: Option<u64>, now: i64)
    -> (r: Result<(), ErrorCode>)
    ensures
        match settlement(*old(project), *old(stake), reflection_balance, now) {
            Ok((p, s)) => {
                &&& r is Ok
                &&& *final(project) == p
                &&& *final(stake) == s
            },
            Err(e) => {
                &&& r is Err && r->Err_0 == e
                &&& *final(project) == *old(project)
                &&& *final(stake) == *old(stake)
            },
        },
        final(project).reward_per_token_stored >= old(project).reward_per_token_stored,
        final(project).reflection_per_token_stored >= old(project).reflection_per_token_stored,
        final(stake).rewards_pending >= old(stake).rewards_pending,
        final(stake).reflections_pending >= old(stake).reflections_pending,
        old(project).well_formed() ==> final(project).well_formed(),
{
    proof {
        if settlement(*project, *stake, reflection_balance, now) is Ok {
            lemma_settlement_is_monotonic(*project, *stake, reflection_balance, now);
        }
    }
    let mut pool = *project;
    let mut position = *stake;
    match update_reward(&mut pool, &mut position, now) {
        Ok(()) => {},
        Err(e) => {
            return Err(e);
        },
    }
    match update_reflection(&mut pool, &mut position, reflection_balance, now) {
        Ok(()) => {},
        Err(e) => {
            return Err(e);
        },
    }
    *project = pool;
    *stake = position;
    Ok(())
}

/// What settling does where the reflection vault need not have been
/// observed: rewards are settled always, and reflections as well if a balance
/// was observed. Without one the reflection engine is not run, also in a pool
/// that has reflections.
pub open spec fn settlement_as_observed(
    p: Project,
    s: Stake,
    reflection_balance: Option<u64>,
    now: i64,
) -> Result<(Project, Stake), ErrorCode> {
    if reflection_balance is Some {
        settlement(p, s, reflection_balance, now)
    } else if !reward_settlement_fits(p, s, now) {
        Err(ErrorCode::MathOverflow)
    } else {
        Ok((accrued(p, now), credited(s, accrued(p, now).reward_per_token_stored)))
    }
}

/// Settles rewards at `now`, and reflections too if the balance of the
/// reflection vault was observed. On failure pool and stake are unchanged.
pub fn settle_as_observed(
    project: &mut Project,
    stake: &mut Stake,
    reflection_balance: Option<u64>,
    now: i64,
) -> (r: Result<(), ErrorCode>)
    ensures
        match settlement_as_observed(*old(project), *old(stake), reflection_balance, now) {
            Ok((p, s)) => {
                &&& r is Ok
                &&& *final(project) == p
                &&& *final(stake) == s
            },
            Err(e) => {
                &&& r is Err && r->Err_0 == e
                &&& *final(project) == *old(project)
                &&& *final(stake) == *old(stake)
            },
        },
        old(project).well_formed() ==> final(project).well_formed(),
{
    match reflection_balance {
        Some(_) => settle(project, stake, reflection_balance, now),
        None => update_reward(project, stake, now),
    }
}

/// Whether the stake belongs to `user` in the pool `project_key`; if not,
/// why not.
pub open spec fn ownership_fault(s: Stake, user: Address, project_key: Address) -> Option<
    ErrorCode,
> {
    if s.user != user {
        Some(ErrorCode::Unauthorized)
    } else if s.project != project_key {
        Some(ErrorCode::InvalidProject)
    } else {
        None
    }
}

pub(crate) fn check_ownership(stake: &Stake, user: &Address, project_key: &Address) -> (r: Result<
    (),
    ErrorCode,
>)
    ensures
        match ownership_fault(*stake, *user, *project_key) {
            Some(e) => r is Err && r->Err_0 == e,
            None => r is Ok,
        },
{
    if stake.user != *user {
        Err(ErrorCode::Unauthorized)
    } else if stake.project != *project_key {
        Err(ErrorCode::InvalidProject)
    } else {
        Ok(())
    }
}

/// A settlement touches no principal and no schedule: the pool's total, the
/// stake's amount, the lockup and the time of the last deposit stay as they
/// are.
pub proof fn lemma_settlement_keeps_principal(
    p: Project,
    s: Stake,
    reflection_balance: Option<u64>,
    now: i64,
)
    requires
        settlement(p, s, reflection_balance, now) is Ok,
    ensures
        ({
            let (pool, stake) = settlement(p, s, reflection_balance, now)->Ok_0;
            &&& pool.total_staked == p.total_staked
            &&& pool.lockup_seconds == p.lockup_seconds
            &&& pool.pool_end_time == p.pool_end_time
            &&& pool.reward_rate_per_second == p.reward_rate_per_second
            &&& stake.amount == s.amount
            &&& stake.last_stake_timestamp == s.last_stake_timestamp
        }),
{
}

/// A settlement that succeeds lowers nothing: neither of the pool's
/// accumulators, and neither of the stake's pending balances.
pub proof fn lemma_settlement_is_monotonic(
    p: Project,
    s: Stake,
    reflection_balance: Option<u64>,
    now: i64,
)
    requires
        settlement(p, s, reflection_balance, now) is Ok,
    ensures
        ({
            let (pool, stake) = settlement(p, s, reflection_balance, now)->Ok_0;
            &&& pool.reward_per_token_stored >= p.reward_per_token_stored
            &&& pool.reflection_per_token_stored >= p.reflection_per_token_stored
            &&& stake.rewards_pending >= s.rewards_pending
            &&& stake.reflections_pending >= s.reflections_pending
        }),
{
    let accrued_pool = accrued(p, now);
    let credited_stake = credited(s, accrued_pool.reward_per_token_stored);
    lemma_accrual_is_monotonic(p, now);
    lemma_credit_is_monotonic(s, accrued_pool.reward_per_token_stored);
    lemma_reflection_settlement_is_monotonic(
        accrued_pool,
        credited_stake,
        reflection_balance,
        now,
        true,
    );
}

/// A settlement leaves the stake's markers behind the pool's accumulators,
/// if the reflection marker was behind before: the reward marker is moved up
/// to the accumulator, the reflection marker is moved up to it or left where
/// it was.
pub proof fn lemma_settlement_moves_markers_up(
    p: Project,
    s: Stake,
    reflection_balance: Option<u64>,
    now: i64,
)
    requires
        settlement(p, s, reflection_balance, now) is Ok,
        s.reflection_per_token_paid <= p.reflection_per_token_stored,
    ensures
        ({
            let (pool, stake) = settlement(p, s, reflection_balance, now)->Ok_0;
            &&& stake.reward_per_token_paid == pool.reward_per_token_stored
            &&& stake.reflection_per_token_paid <= pool.reflection_per_token_stored
        }),
{
    let accrued_pool = accrued(p, now);
    let credited_stake = credited(s, accrued_pool.reward_per_token_stored);
    lemma_reflection_settlement_is_monotonic(
        accrued_pool,
        credited_stake,
        reflection_balance,
        now,
        true,
    );
}

/// Settling twice with the same clock and the same observed balance is
/// settling once, provided the balance has not dropped below the pool's
/// baseline: the second settlement succeeds and changes neither pool nor
/// stake.
pub proof fn lemma_settlement_is_idempotent(
    p: Project,
    s: Stake,
    reflection_balance: Option<u64>,
    now: i64,
)
    requires
        settlement(p, s, reflection_balance, now) is Ok,
        reflection_balance matches Some(balance) ==> balance >= p.last_reflection_balance,
    ensures
        ({
            let (pool, stake) = settlement(p, s, reflection_balance, now)->Ok_0;
            let again = settlement(pool, stake, reflection_balance, now);
            again is Ok && again->Ok_0 == (pool, stake)
        }),
{
    let accrued_pool = accrued(p, now);
    let credited_stake = credited(s, accrued_pool.reward_per_token_stored);
    let (
        pool,
        stake,
    ) = reflection_outcome(accrued_pool, credited_stake, reflection_balance, now, true)->Ok_0;
    lemma_reward_settlement_is_idempotent(p, s, now);
    lemma_reflection_settlement_is_idempotent(
        accrued_pool,
        credited_stake,
        reflection_balance,
        now,
    );
    // The reflection step leaves alone what the reward step reads.
    assert(accrued(pool, now) == pool) by {
        lemma_no_time_no_accrual(pool, now);
    }
    assert(credited(stake, pool.reward_per_token_stored) == stake);
}

/// No accrual past the pool's end: settled at two different times after the
/// end, whatever is observed of reflections, the reward accumulator comes
/// out the same; and settled again later, it stays where it is.
pub proof fn lemma_settlement_stops_at_end(
    p: Project,
    s: Stake,
    first_balance: Option<u64>,
    first: i64,
    second_balance: Option<u64>,
    second: i64,
)
    requires
        p.pool_end_time < first < second,
        settlement(p, s, first_balance, first) is Ok,
    ensures
        ({
            let once = settlement(p, s, first_balance, first)->Ok_0;
            let instead = settlement(p, s, second_balance, second);
            let again = settlement(once.0, once.1, second_balance, second);
            &&& instead is Ok ==> instead->Ok_0.0.reward_per_token_stored
                == once.0.reward_per_token_stored
            &&& again is Ok ==> again->Ok_0.0.reward_per_token_stored
                == once.0.reward_per_token_stored
        }),
{
    lemma_no_accrual_past_end(p, first, second);
    let pool = settlement(p, s, first_balance, first)->Ok_0.0;
    assert(pool.pool_end_time == p.pool_end_time);
    assert(pool.last_update_time == first);
    lemma_no_time_no_accrual(pool, second);
}

/// Settling with or without an observed balance touches no principal and
/// lowers nothing. It brings the stake's reward marker up to the pool's
/// accumulator and leaves the reflection marker behind the pool's if it was
/// behind before.
pub proof fn lemma_settlement_as_observed_is_safe(
    p: Project,
    s: Stake,
    reflection_balance: Option<u64>,
    now: i64,
)
    requires
        settlement_as_observed(p, s, reflection_balance, now) is Ok,
    ensures
        ({
            let (pool, stake) = settlement_as_observed(p, s, reflection_balance, now)->Ok_0;
            &&& pool.total_staked == p.total_staked
            &&& stake.amount == s.amount
            &&& pool.reward_per_token_stored >= p.reward_per_token_stored
            &&& pool.reflection_per_token_stored >= p.reflection_per_token_stored
            &&& stake.rewards_pending >= s.rewards_pending
            &&& stake.reflections_pending >= s.reflections_pending
            &&& stake.reward_per_token_paid == pool.reward_per_token_stored
            &&& s.reflection_per_token_paid <= p.reflection_per_token_stored
                ==> stake.reflection_per_token_paid <= pool.reflection_per_token_stored
        }),
{
    if reflection_balance is Some {
        lemma_settlement_keeps_principal(p, s, reflection_balance, now);
        lemma_settlement_is_monotonic(p, s, reflection_balance, now);
        if s.reflection_per_token_paid <= p.reflection_per_token_stored {
            lemma_settlement_moves_markers_up(p, s, reflection_balance, now);
        }
    } else {
        lemma_accrual_is_monotonic(p, now);
        lemma_credit_is_monotonic(s, accrued(p, now).reward_per_token_stored);
    }
}

} // verus!

//! The reward engine: time-based emission.
//!
//! A pool keeps `reward_per_token_stored`, the reward one staked unit has
//! earned since the pool began, scaled by `PRECISION`. Settling at a time
//! `now` first advances the accumulator over the time elapsed since
//! `last_update_time`, clipped at the pool's end, and then credits a stake
//! with `amount * (stored - paid) / PRECISION`.
//!
//! The accumulator is scaled the same way in both rate modes, and a stake's
//! credit divides by `PRECISION` exactly once. The modes differ in what the
//! per-second rate means: in a fixed pool it already is the scaled reward of
//! one unit, in a variable pool it is the emission of the whole pool and is
//! shared among `total_staked` units.

use crate::errors::ErrorCode;
use crate::math::{mul3_div, mul3_div_floor, mul_div, mul_div_floor, PRECISION};
use crate::state::{Project, RateMode, Stake};
use vstd::prelude::*;

verus! {

/// The seconds over which a settlement at `now` accrues: the time since the
/// last update, but none of it past the pool's end.
pub open spec fn effective_elapsed(p: Project, now: i64) -> int {
    if now > p.last_update_time {
        let elapsed = now - p.last_update_time;
        let until_end = if p.pool_end_time > p.last_update_time {
            p.pool_end_time - p.last_update_time
        } else {
            0
        };
        if elapsed <= until_end {
            elapsed
        } else {
            until_end
        }
    } else {
        0
    }
}

/// By how much a settlement at `now` raises `reward_per_token_stored`.
/// Nothing accrues while nothing is staked.
pub open spec fn accrual(p: Project, now: i64) -> int {
    if p.total_staked == 0 {
        0
    } else {
        match p.rate_mode {
            RateMode::Fixed => p.reward_rate_per_second * effective_elapsed(p, now),
            RateMode::Variable => mul3_div_floor(
                p.reward_rate_per_second as int,
                effective_elapsed(p, now),
                PRECISION as int,
                p.total_staked as int,
            ),
        }
    }
}

/// Whether the accumulator still fits 64 bits after a settlement at `now`.
pub open spec fn accrual_fits(p: Project, now: i64) -> bool {
    p.reward_per_token_stored + accrual(p, now) <= u64::MAX
}

/// The pool after its accumulator has been advanced to `now`.
pub open spec fn accrued(p: Project, now: i64) -> Project {
    Project {
        reward_per_token_stored: (p.reward_per_token_stored + accrual(p, now)) as u64,
        last_update_time: now,
        ..p
    }
}

/// What a stake has earned since its last settlement, given the pool's
/// accumulator `stored`.
pub open spec fn earned_rewards(s: Stake, stored: u64) -> int {
    if s.amount > 0 && stored > s.reward_per_token_paid {
        mul_div_floor(s.amount as int, stored - s.reward_per_token_paid, PRECISION as int)
    } else {
        0
    }
}

/// Whether the stake's pending rewards still fit 64 bits after the credit.
pub open spec fn credit_fits(s: Stake, stored: u64) -> bool {
    s.rewards_pending + earned_rewards(s, stored) <= u64::MAX
}

/// The stake after it has been credited against the accumulator `stored`.
pub open spec fn credited(s: Stake, stored: u64) -> Stake {
    Stake {
        rewards_pending: (s.rewards_pending + earned_rewards(s, stored)) as u64,
        reward_per_token_paid: stored,
        ..s
    }
}

/// Whether settling pool and stake at `now` overflows nowhere.
pub open spec fn reward_settlement_fits(p: Project, s: Stake, now: i64) -> bool {
    accrual_fits(p, now) && credit_fits(s, accrued(p, now).reward_per_token_stored)
}

/// The seconds of accrual for a settlement at `now`.
fn elapsed_seconds(project: &Project, now: i64) -> (t: u64)
    ensures
        t == effective_elapsed(*project, now),
{
    if now > project.last_update_time {
        let elapsed: i128 = now as i128 - project.last_update_time as i128;
        let until_end: i128 = if project.pool_end_time > project.last_update_time {
            project.pool_end_time as i128 - project.last_update_time as i128
        } else {
            0
        };
        if elapsed <= until_end {
            elapsed as u64
        } else {
            until_end as u64
        }
    } else {
        0
    }
}

/// Advances the pool's reward accumulator to `now`.
///
/// The accumulator grows by [`accrual`] and `last_update_time` becomes `now`,
/// also when nothing is staked or no time has passed. Fails with
/// `MathOverflow`, changing nothing, exactly when the accumulator would no
/// longer fit 64 bits.
pub fn accrue_rewards(project: &mut Project, now: i64) -> (r: Result<(), ErrorCode>)
    ensures
        accrual_fits(*old(project), now) ==> {
            &&& r is Ok
            &&& *final(project) == accrued(*old(project), now)
        },
        !accrual_fits(*old(project), now) ==> {
            &&& r matches Err(ErrorCode::MathOverflow)
            &&& *final(project) == *old(project)
        },
        final(project).reward_per_token_stored >= old(project).reward_per_token_stored,
        old(project).well_formed() ==> final(project).well_formed(),
{
    proof {
        lemma_accrual_is_monotonic(*project, now);
    }
    let mut delta: u64 = 0;
    if project.total_staked > 0 {
        let t = elapsed_seconds(project, now);
        let scaled = match project.rate_mode {
            RateMode::Fixed => mul_div(project.reward_rate_per_second, t, 1),
            RateMode::Variable => mul3_div(
                project.reward_rate_per_second,
                t,
                PRECISION,
                project.total_staked,
            ),
        };
        match scaled {
            Ok(d) => {
                delta = d;
            },
            Err(_) => {
                return Err(ErrorCode::MathOverflow);
            },
        }
    }
    match project.reward_per_token_stored.checked_add(delta) {
        Some(stored) => {
            project.reward_per_token_stored = stored;
            project.last_update_time = now;
            Ok(())
        },
        None => Err(ErrorCode::MathOverflow),
    }
}

/// Credits a stake with what it has earned since its last settlement and
/// moves its marker up to the pool's accumulator.
///
/// Fails with `MathOverflow`, changing nothing, exactly when the pending
/// rewards would no longer fit 64 bits.
pub fn credit_rewards(project: &Project, stake: &mut Stake) -> (r: Result<(), ErrorCode>)
    ensures
        credit_fits(*old(stake), project.reward_per_token_stored) ==> {
            &&& r is Ok
            &&& *final(stake) == credited(*old(stake), project.reward_per_token_stored)
        },
        !credit_fits(*old(stake), project.reward_per_token_stored) ==> {
            &&& r matches Err(ErrorCode::MathOverflow)
            &&& *final(stake) == *old(stake)
        },
        final(stake).rewards_pending >= old(stake).rewards_pending,
{
    proof {
        lemma_credit_is_monotonic(*stake, project.reward_per_token_stored);
    }
    let mut earned: u64 = 0;
    if stake.amount > 0 && project.reward_per_token_stored > stake.reward_per_token_paid {
        let diff = project.reward_per_token_stored - stake.reward_per_token_paid;
        match mul_div(stake.amount, diff, PRECISION) {
            Ok(e) => {
                earned = e;
            },
            Err(_) => {
                return Err(ErrorCode::MathOverflow);
            },
        }
    }
    match stake.rewards_pending.checked_add(earned) {
        Some(pending) => {
            stake.rewards_pending = pending;
            stake.reward_per_token_paid = project.reward_per_token_stored;
            Ok(())
        },
        None => Err(ErrorCode::MathOverflow),
    }
}

/// Settles rewards at `now`: advances the pool's accumulator, then credits
/// the stake.
///
/// Fails with `MathOverflow` exactly when the accumulator or the pending
/// rewards would no longer fit 64 bits; pool and stake are then unchanged.
pub fn update_reward(project: &mut Project, stake: &mut Stake, now: i64) -> (r: Result<
    (),
    ErrorCode,
>)
    ensures
        reward_settlement_fits(*old(project), *old(stake), now) ==> {
            &&& r is Ok
            &&& *final(project) == accrued(*old(project), now)
            &&& *final(stake) == credited(*old(stake), final(project).reward_per_token_stored)
        },
        !reward_settlement_fits(*old(project), *old(stake), now) ==> {
            &&& r matches Err(ErrorCode::MathOverflow)
            &&& *final(project) == *old(project)
            &&& *final(stake) == *old(stake)
        },
        final(project).reward_per_token_stored >= old(project).reward_per_token_stored,
        final(stake).rewards_pending >= old(stake).rewards_pending,
        old(project).well_formed() ==> final(project).well_formed(),
{
    let mut pool = *project;
    match accrue_rewards(&mut pool, now) {
        Ok(()) => {},
        Err(e) => {
            return Err(e);
        },
    }
    match credit_rewards(&pool, stake) {
        Ok(()) => {},
        Err(e) => {
            return Err(e);
        },
    }
    *project = pool;
    Ok(())
}

/// Where no time counts, nothing accrues.
pub proof fn lemma_no_time_no_accrual(p: Project, now: i64)
    requires
        effective_elapsed(p, now) == 0,
    ensures
        accrual(p, now) == 0,
        accrual_fits(p, now),
        accrued(p, now).reward_per_token_stored == p.reward_per_token_stored,
{
    let rate = p.reward_rate_per_second as int;
    let staked = p.total_staked as int;
    assert(rate * 0 == 0);
    assert(rate * 0 * PRECISION == 0);
    if staked > 0 {
        assert(0int / staked == 0) by (nonlinear_arith)
            requires
                staked > 0,
        ;
    }
}

/// Accrual never takes anything back: a settlement cannot lower the
/// accumulator.
pub proof fn lemma_accrual_is_monotonic(p: Project, now: i64)
    ensures
        0 <= effective_elapsed(p, now),
        0 <= accrual(p, now),
        accrual_fits(p, now) ==>
            accrued(p, now).reward_per_token_stored >= p.reward_per_token_stored,
{
    let t = effective_elapsed(p, now);
    let rate = p.reward_rate_per_second as int;
    let staked = p.total_staked as int;
    assert(0 <= rate * t) by (nonlinear_arith)
        requires
            0 <= rate,
            0 <= t,
    ;
    if staked > 0 {
        assert(0 <= (rate * t * PRECISION) / staked) by (nonlinear_arith)
            requires
                0 <= rate * t,
                staked > 0,
        ;
    }
}

/// No time past the pool's end counts: a settlement after the end accrues
/// what a settlement exactly at the end would.
pub proof fn lemma_accrual_stops_at_end(p: Project, now: i64)
    requires
        now >= p.pool_end_time,
    ensures
        effective_elapsed(p, now) == effective_elapsed(p, p.pool_end_time),
        accrual(p, now) == accrual(p, p.pool_end_time),
{
}

/// Two settlements after the pool's end leave the same accumulator,
/// whichever of the two times is used.
pub proof fn lemma_no_accrual_past_end(p: Project, now1: i64, now2: i64)
    requires
        p.pool_end_time < now1 < now2,
    ensures
        accrual(p, now1) == accrual(p, now2),
        accrual_fits(p, now1) == accrual_fits(p, now2),
        accrued(p, now1).reward_per_token_stored == accrued(p, now2).reward_per_token_stored,
{
    lemma_accrual_stops_at_end(p, now1);
    lemma_accrual_stops_at_end(p, now2);
}

/// Once a pool has been settled after its end, settling it again later adds
/// nothing.
pub proof fn lemma_settled_after_end_stays(p: Project, now1: i64, now2: i64)
    requires
        p.pool_end_time < now1 < now2,
    ensures
        ({
            let pool = accrued(p, now1);
            &&& accrual(pool, now2) == 0
            &&& accrual_fits(p, now1) ==> accrual_fits(pool, now2)
            &&& accrual_fits(p, now1) ==> accrued(pool, now2).reward_per_token_stored
                == pool.reward_per_token_stored
        }),
{
    lemma_no_time_no_accrual(accrued(p, now1), now2);
}

/// A stake's credit never takes anything back.
pub proof fn lemma_credit_is_monotonic(s: Stake, stored: u64)
    ensures
        0 <= earned_rewards(s, stored),
        credit_fits(s, stored) ==> credited(s, stored).rewards_pending >= s.rewards_pending,
{
    if s.amount > 0 && stored > s.reward_per_token_paid {
        let amount = s.amount as int;
        let diff = stored - s.reward_per_token_paid;
        assert(0 <= (amount * diff) / (PRECISION as int)) by (nonlinear_arith)
            requires
                0 <= amount,
                0 <= diff,
                PRECISION == 1_000_000_000,
        ;
    }
}

/// Settling twice at the same time is settling once: the second settlement
/// always fits and changes neither pool nor stake.
pub proof fn lemma_reward_settlement_is_idempotent(p: Project, s: Stake, now: i64)
    requires
        reward_settlement_fits(p, s, now),
    ensures
        ({
            let pool = accrued(p, now);
            let stake = credited(s, pool.reward_per_token_stored);
            &&& reward_settlement_fits(pool, stake, now)
            &&& accrued(pool, now) == pool
            &&& credited(stake, pool.reward_per_token_stored) == stake
        }),
{
    lemma_no_time_no_accrual(accrued(p, now), now);
}

} // verus!

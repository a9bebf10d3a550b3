//! Solvency: the ledger never credits more than came in.
//!
//! What a variable pool emits over a span of time is shared among its stakes
//! by flooring, first per unit and then per stake. Flooring only ever rounds
//! in the pool's favour, so that all stakes together are credited with no
//! more than was emitted. The same holds of reflections: all stakes together
//! are credited with no more than the vault has grown by.

use crate::invariants::{conserved, total_principal};
use crate::math::PRECISION;
use crate::reflections::{
    gross_reflections,
    net_reflections,
    observation_fits,
    observed_project,
    reflection_accrual,
};
use crate::rewards::{accrual, accrual_fits, accrued, earned_rewards, effective_elapsed};
use crate::state::{Project, Stake};
use vstd::prelude::*;

verus! {

/// What all of `stakes` together earn in rewards against the accumulator
/// `stored`.
pub open spec fn total_earned(stakes: Seq<Stake>, stored: u64) -> int
    decreases stakes.len(),
{
    if stakes.len() == 0 {
        0
    } else {
        total_earned(stakes.drop_last(), stored) + earned_rewards(stakes.last(), stored)
    }
}

/// What all of `stakes` together are credited with in reflections against
/// the accumulator `stored`.
pub open spec fn total_reflected(stakes: Seq<Stake>, stored: u64) -> int
    decreases stakes.len(),
{
    if stakes.len() == 0 {
        0
    } else {
        total_reflected(stakes.drop_last(), stored) + net_reflections(stakes.last(), stored)
    }
}

/// All of `stakes` have their reward marker at `marker`.
pub open spec fn rewards_settled_at(stakes: Seq<Stake>, marker: u64) -> bool {
    forall|i: int| 0 <= i < stakes.len() ==> (#[trigger] stakes[i]).reward_per_token_paid == marker
}

/// All of `stakes` have their reflection marker at `marker`.
pub open spec fn reflections_settled_at(stakes: Seq<Stake>, marker: u64) -> bool {
    forall|i: int|
        0 <= i < stakes.len() ==> (#[trigger] stakes[i]).reflection_per_token_paid == marker
}

/// A floored share, scaled back up, is no more than what was shared.
proof fn lemma_floor_is_below(x: int, d: int)
    requires
        0 <= x,
        0 < d,
    ensures
        0 <= (x / d) * d <= x,
{
    assert(0 <= (x / d) * d <= x) by (nonlinear_arith)
        requires
            0 <= x,
            0 < d,
    ;
}

/// Stakes whose markers stand `delta` below the accumulator earn together,
/// scaled up, no more than `delta` for each unit of their principal.
proof fn lemma_earnings_below_principal_times_delta(stakes: Seq<Stake>, marker: u64, stored: u64)
    requires
        rewards_settled_at(stakes, marker),
        marker <= stored,
    ensures
        0 <= total_earned(stakes, stored) * PRECISION <= total_principal(stakes) * (stored
            - marker),
    decreases stakes.len(),
{
    let delta = stored - marker;
    if stakes.len() == 0 {
        assert(total_principal(stakes) * delta == 0) by (nonlinear_arith)
            requires
                total_principal(stakes) == 0,
        ;
    } else {
        let rest = stakes.drop_last();
        let last = stakes.last();
        assert(rewards_settled_at(rest, marker)) by {
            assert forall|i: int| 0 <= i < rest.len() implies (
            #[trigger] rest[i]).reward_per_token_paid == marker by {
                assert(rest[i] == stakes[i]);
            }
        }
        lemma_earnings_below_principal_times_delta(rest, marker, stored);
        assert(last.reward_per_token_paid == marker);
        let amount = last.amount as int;
        let earned = earned_rewards(last, stored);
        assert(0 <= earned * PRECISION <= amount * delta) by {
            if amount > 0 && delta > 0 {
                assert(0 <= amount * delta) by (nonlinear_arith)
                    requires
                        0 <= amount,
                        0 <= delta,
                ;
                lemma_floor_is_below(amount * delta, PRECISION as int);
            } else {
                assert(0 <= amount * delta) by (nonlinear_arith)
                    requires
                        0 <= amount,
                        0 <= delta,
                ;
            }
        }
        let before = total_earned(rest, stored);
        let principal = total_principal(rest);
        assert((before + earned) * PRECISION == before * PRECISION + earned * PRECISION)
            by (nonlinear_arith);
        assert((principal + amount) * delta == principal * delta + amount * delta)
            by (nonlinear_arith);
    }
}

/// Rewards are never credited beyond what was emitted.
///
/// Take a variable pool whose total is the sum of its stakes, all of them
/// settled up to the pool's accumulator. When the pool is settled at `now`
/// and every stake is credited, all stakes together earn no more than the
/// pool's rate times the seconds that count.
pub proof fn lemma_rewards_never_exceed_emission(p: Project, stakes: Seq<Stake>, now: i64)
    requires
        p.rate_mode is Variable,
        conserved(p, stakes),
        rewards_settled_at(stakes, p.reward_per_token_stored),
        accrual_fits(p, now),
    ensures
        0 <= total_earned(stakes, accrued(p, now).reward_per_token_stored)
            <= p.reward_rate_per_second * effective_elapsed(p, now),
{
    let stored = accrued(p, now).reward_per_token_stored;
    let delta = accrual(p, now);
    let rate = p.reward_rate_per_second as int;
    let t = effective_elapsed(p, now);
    let staked = p.total_staked as int;
    let scale = PRECISION as int;
    assert(0 <= t);
    assert(0 <= rate * t) by (nonlinear_arith)
        requires
            0 <= rate,
            0 <= t,
    ;
    if staked == 0 {
        assert(delta == 0);
        lemma_earnings_below_principal_times_delta(stakes, p.reward_per_token_stored, stored);
        let earned = total_earned(stakes, stored);
        assert(earned * scale <= 0) by (nonlinear_arith)
            requires
                earned * scale <= staked * 0,
        ;
        assert(earned <= 0) by (nonlinear_arith)
            requires
                earned * scale <= 0,
                scale == 1_000_000_000,
        ;
        assert(earned >= 0) by (nonlinear_arith)
            requires
                0 <= earned * scale,
                scale == 1_000_000_000,
        ;
    } else {
        assert(delta == (rate * t * scale) / staked);
        assert(0 <= rate * t * scale) by (nonlinear_arith)
            requires
                0 <= rate * t,
                scale == 1_000_000_000,
        ;
        lemma_floor_is_below(rate * t * scale, staked);
        assert(0 <= delta) by (nonlinear_arith)
            requires
                delta == (rate * t * scale) / staked,
                0 <= rate * t * scale,
                0 < staked,
        ;
        assert(stored - p.reward_per_token_stored == delta);
        lemma_earnings_below_principal_times_delta(stakes, p.reward_per_token_stored, stored);
        let earned = total_earned(stakes, stored);
        // earned * scale <= staked * delta <= rate * t * scale
        assert(staked * delta == delta * staked) by (nonlinear_arith);
        assert(earned * scale <= (rate * t) * scale) by (nonlinear_arith)
            requires
                earned * scale <= staked * delta,
                staked * delta == delta * staked,
                delta * staked <= rate * t * scale,
        ;
        assert(earned <= rate * t) by (nonlinear_arith)
            requires
                earned * scale <= (rate * t) * scale,
                scale == 1_000_000_000,
        ;
        assert(earned >= 0) by (nonlinear_arith)
            requires
                0 <= earned * scale,
                scale == 1_000_000_000,
        ;
    }
}

/// Stakes whose markers stand `delta` below the accumulator are credited
/// together, scaled up, with no more than `delta` for each unit of their
/// principal.
proof fn lemma_reflections_below_principal_times_delta(
    stakes: Seq<Stake>,
    marker: u64,
    stored: u64,
)
    requires
        reflections_settled_at(stakes, marker),
        marker <= stored,
    ensures
        0 <= total_reflected(stakes, stored) * PRECISION <= total_principal(stakes) * (stored
            - marker),
    decreases stakes.len(),
{
    let delta = stored - marker;
    if stakes.len() == 0 {
        assert(total_principal(stakes) * delta == 0) by (nonlinear_arith)
            requires
                total_principal(stakes) == 0,
        ;
    } else {
        let rest = stakes.drop_last();
        let last = stakes.last();
        assert(reflections_settled_at(rest, marker)) by {
            assert forall|i: int| 0 <= i < rest.len() implies (
            #[trigger] rest[i]).reflection_per_token_paid == marker by {
                assert(rest[i] == stakes[i]);
            }
        }
        lemma_reflections_below_principal_times_delta(rest, marker, stored);
        assert(last.reflection_per_token_paid == marker);
        let amount = last.amount as int;
        let gross = gross_reflections(last, stored);
        let net = net_reflections(last, stored);
        assert(0 <= amount * delta) by (nonlinear_arith)
            requires
                0 <= amount,
                0 <= delta,
        ;
        assert(0 <= gross * PRECISION <= amount * delta) by {
            if delta > 0 {
                assert(delta * amount == amount * delta) by (nonlinear_arith);
                lemma_floor_is_below(delta * amount, PRECISION as int);
            }
        }
        assert(0 <= net <= gross);
        assert(0 <= net * PRECISION <= gross * PRECISION) by (nonlinear_arith)
            requires
                0 <= net <= gross,
                PRECISION == 1_000_000_000,
        ;
        let before = total_reflected(rest, stored);
        let principal = total_principal(rest);
        assert((before + net) * PRECISION == before * PRECISION + net * PRECISION)
            by (nonlinear_arith);
        assert((principal + amount) * delta == principal * delta + amount * delta)
            by (nonlinear_arith);
    }
}

/// Reflections are never credited beyond what the vault has grown by.
///
/// Take a pool whose total is the sum of its stakes, all of them settled up
/// to the pool's accumulator. When a balance no lower than the baseline is
/// taken in and every stake is credited, all stakes together are credited
/// with no more than the balance exceeds the baseline by.
pub proof fn lemma_reflections_never_exceed_growth(
    p: Project,
    stakes: Seq<Stake>,
    observed: u64,
    now: i64,
)
    requires
        conserved(p, stakes),
        reflections_settled_at(stakes, p.reflection_per_token_stored),
        observed >= p.last_reflection_balance,
        observation_fits(p, observed),
    ensures
        0 <= total_reflected(stakes, observed_project(p, observed, now).reflection_per_token_stored)
            <= observed - p.last_reflection_balance,
{
    let stored = observed_project(p, observed, now).reflection_per_token_stored;
    let delta = reflection_accrual(p, observed);
    let grown = observed - p.last_reflection_balance;
    let staked = p.total_staked as int;
    let scale = PRECISION as int;
    if observed > p.last_reflection_balance && staked > 0 {
        assert(delta == (grown * scale) / staked);
        assert(0 <= grown * scale) by (nonlinear_arith)
            requires
                0 <= grown,
                scale == 1_000_000_000,
        ;
        lemma_floor_is_below(grown * scale, staked);
        assert(0 <= delta) by (nonlinear_arith)
            requires
                delta == (grown * scale) / staked,
                0 <= grown * scale,
                0 < staked,
        ;
        assert(stored - p.reflection_per_token_stored == delta);
        lemma_reflections_below_principal_times_delta(
            stakes,
            p.reflection_per_token_stored,
            stored,
        );
        let credited = total_reflected(stakes, stored);
        assert(staked * delta == delta * staked) by (nonlinear_arith);
        assert(credited * scale <= grown * scale) by (nonlinear_arith)
            requires
                credited * scale <= staked * delta,
                staked * delta == delta * staked,
                delta * staked <= grown * scale,
        ;
        assert(credited <= grown) by (nonlinear_arith)
            requires
                credited * scale <= grown * scale,
                scale == 1_000_000_000,
        ;
        assert(credited >= 0) by (nonlinear_arith)
            requires
                0 <= credited * scale,
                scale == 1_000_000_000,
        ;
    } else {
        assert(stored == p.reflection_per_token_stored);
        lemma_reflections_below_principal_times_delta(
            stakes,
            p.reflection_per_token_stored,
            stored,
        );
        let credited = total_reflected(stakes, stored);
        assert(credited * scale <= 0) by (nonlinear_arith)
            requires
                credited * scale <= total_principal(stakes) * 0,
        ;
        assert(credited <= 0) by (nonlinear_arith)
            requires
                credited * scale <= 0,
                scale == 1_000_000_000,
        ;
        assert(credited >= 0) by (nonlinear_arith)
            requires
                0 <= credited * scale,
                scale == 1_000_000_000,
        ;
    }
}

} // verus!

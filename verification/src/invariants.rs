//! What holds of a pool and all its stakes together, whatever is done to
//! them.
//!
//! Conservation of principal: a pool's `total_staked` is the sum of the
//! principal of its stakes. And no stake's marker is ever ahead of the pool's
//! accumulator, so that what a stake earns is the plain difference of the
//! two, times its principal.
//!
//! The stakes of a pool live in separate records, so neither is an invariant
//! of any one record. Both are stated here over a pool together with the
//! sequence of all its stakes, and proved for every operation of the ledger
//! and for every run of them.

use crate::claim::{
    claim_outcome,
    claim_reflections_outcome,
    refresh_outcome,
    ClaimArgs,
    ClaimReflectionsArgs,
};
use crate::deposit::{
    deposit_outcome,
    lemma_deposit_credits_what_arrived,
    lemma_deposit_settlement_is_safe,
    DepositArgs,
};
use crate::math::{mul_div_floor, PRECISION};
use crate::pool::{
    deposit_rewards_outcome,
    set_pool_duration_outcome,
    DepositRewardsArgs,
    SetPoolDurationArgs,
};
use crate::reflections::{gross_reflections, lemma_reflection_settlement_is_monotonic};
use crate::rewards::{
    accrued,
    earned_rewards,
    lemma_accrual_is_monotonic,
    lemma_credit_is_monotonic,
};
use crate::settlement::{
    lemma_settlement_as_observed_is_safe,
    lemma_settlement_is_monotonic,
    lemma_settlement_keeps_principal,
    lemma_settlement_moves_markers_up,
    settlement,
};
use crate::state::{Platform, Project, Stake};
use crate::withdraw::{
    emergency_return_outcome,
    withdraw_outcome,
    EmergencyReturnArgs,
    WithdrawArgs,
};
use vstd::prelude::*;

verus! {

/// The principal held by all of `stakes` together.
pub open spec fn total_principal(stakes: Seq<Stake>) -> int
    decreases stakes.len(),
{
    if stakes.len() == 0 {
        0
    } else {
        total_principal(stakes.drop_last()) + stakes.last().amount
    }
}

/// The pool's total is the sum of its stakes.
pub open spec fn conserved(p: Project, stakes: Seq<Stake>) -> bool {
    p.total_staked == total_principal(stakes)
}

/// A new stake adds its principal to the sum.
pub proof fn lemma_total_after_push(stakes: Seq<Stake>, s: Stake)
    ensures
        total_principal(stakes.push(s)) == total_principal(stakes) + s.amount,
{
    assert(stakes.push(s).drop_last() =~= stakes);
}

/// Replacing a stake changes the sum by the difference of the two.
pub proof fn lemma_total_after_update(stakes: Seq<Stake>, i: int, s: Stake)
    requires
        0 <= i < stakes.len(),
    ensures
        total_principal(stakes.update(i, s)) == total_principal(stakes) - stakes[i].amount
            + s.amount,
    decreases stakes.len(),
{
    if i == stakes.len() - 1 {
        assert(stakes.update(i, s).drop_last() =~= stakes.drop_last());
    } else {
        lemma_total_after_update(stakes.drop_last(), i, s);
        assert(stakes.update(i, s).drop_last() =~= stakes.drop_last().update(i, s));
    }
}

/// One thing done to a pool. A stake is named by its place among the pool's
/// stakes; a deposit without a place opens a new stake.
pub enum Operation {
    Deposit(Platform, Option<usize>, DepositArgs),
    Withdraw(usize, WithdrawArgs),
    Claim(usize, ClaimArgs),
    ClaimReflections(usize, ClaimReflectionsArgs),
    /// The stake, the observed reflection balance and the clock.
    RefreshReflections(usize, u64, i64),
    /// The stake, the observed reflection balance if any, and the clock.
    Settle(usize, Option<u64>, i64),
    EmergencyReturn(usize, EmergencyReturnArgs),
    DepositRewards(DepositRewardsArgs),
    SetPoolDuration(SetPoolDurationArgs),
}

/// Pool and stakes after `op`. An operation that fails, or that names a
/// stake that does not exist, changes nothing.
pub open spec fn applied(p: Project, stakes: Seq<Stake>, op: Operation) -> (Project, Seq<Stake>) {
    match op {
        Operation::Deposit(platform, None, args) => match deposit_outcome(
            platform,
            p,
            None,
            args,
        ) {
            Ok((after, stake, _)) => (after, stakes.push(stake)),
            Err(_) => (p, stakes),
        },
        Operation::Deposit(platform, Some(i), args) => if i < stakes.len() {
            match deposit_outcome(platform, p, Some(stakes[i as int]), args) {
                Ok((after, stake, _)) => (after, stakes.update(i as int, stake)),
                Err(_) => (p, stakes),
            }
        } else {
            (p, stakes)
        },
        Operation::Withdraw(slot, args) => if slot < stakes.len() {
            match withdraw_outcome(p, stakes[slot as int], args) {
                Ok((after, stake, _)) => (after, stakes.update(slot as int, stake)),
                Err(_) => (p, stakes),
            }
        } else {
            (p, stakes)
        },
        Operation::Claim(slot, args) => if slot < stakes.len() {
            match claim_outcome(p, stakes[slot as int], args) {
                Ok((after, stake, _)) => (after, stakes.update(slot as int, stake)),
                Err(_) => (p, stakes),
            }
        } else {
            (p, stakes)
        },
        Operation::ClaimReflections(slot, args) => if slot < stakes.len() {
            match claim_reflections_outcome(p, stakes[slot as int], args) {
                Ok((after, stake, _)) => (after, stakes.update(slot as int, stake)),
                Err(_) => (p, stakes),
            }
        } else {
            (p, stakes)
        },
        Operation::RefreshReflections(slot, vault_balance, now) => if slot < stakes.len() {
            match refresh_outcome(
                p,
                stakes[slot as int],
                stakes[slot as int].user,
                stakes[slot as int].project,
                vault_balance,
                now,
            ) {
                Ok((after, stake)) => (after, stakes.update(slot as int, stake)),
                Err(_) => (p, stakes),
            }
        } else {
            (p, stakes)
        },
        Operation::Settle(slot, reflection_balance, now) => if slot < stakes.len() {
            match settlement(p, stakes[slot as int], reflection_balance, now) {
                Ok((after, stake)) => (after, stakes.update(slot as int, stake)),
                Err(_) => (p, stakes),
            }
        } else {
            (p, stakes)
        },
        Operation::EmergencyReturn(slot, args) => if slot < stakes.len() {
            match emergency_return_outcome(p, stakes[slot as int], args) {
                Ok((after, stake, _)) => (after, stakes.update(slot as int, stake)),
                Err(_) => (p, stakes),
            }
        } else {
            (p, stakes)
        },
        Operation::DepositRewards(args) => match deposit_rewards_outcome(p, args) {
            Ok((after, _)) => (after, stakes),
            Err(_) => (p, stakes),
        },
        Operation::SetPoolDuration(args) => match set_pool_duration_outcome(p, args) {
            Ok((after, _)) => (after, stakes),
            Err(_) => (p, stakes),
        },
    }
}

/// Pool and stakes after all of `ops`, in order.
pub open spec fn applied_all(p: Project, stakes: Seq<Stake>, ops: Seq<Operation>) -> (
    Project,
    Seq<Stake>,
)
    decreases ops.len(),
{
    if ops.len() == 0 {
        (p, stakes)
    } else {
        let before = applied_all(p, stakes, ops.drop_last());
        applied(before.0, before.1, ops.last())
    }
}

/// A deposit keeps the pool's total equal to the sum of its stakes, whether
/// it adds to an existing stake or opens a new one.
pub proof fn lemma_deposit_conserves(
    p: Project,
    stakes: Seq<Stake>,
    platform: Platform,
    slot: Option<usize>,
    args: DepositArgs,
)
    requires
        conserved(p, stakes),
    ensures
        conserved(
            applied(p, stakes, Operation::Deposit(platform, slot, args)).0,
            applied(p, stakes, Operation::Deposit(platform, slot, args)).1,
        ),
{
    match slot {
        None => {
            if deposit_outcome(platform, p, None, args) is Ok {
                lemma_deposit_credits_what_arrived(platform, p, None, args);
                lemma_total_after_push(stakes, deposit_outcome(platform, p, None, args)->Ok_0.1);
            }
        },
        Some(i) => {
            if i < stakes.len() && deposit_outcome(platform, p, Some(stakes[i as int]), args)
                is Ok {
                lemma_deposit_credits_what_arrived(platform, p, Some(stakes[i as int]), args);
                lemma_total_after_update(
                    stakes,
                    i as int,
                    deposit_outcome(platform, p, Some(stakes[i as int]), args)->Ok_0.1,
                );
            }
        },
    }
}

/// A withdrawal keeps the pool's total equal to the sum of its stakes.
pub proof fn lemma_withdraw_conserves(
    p: Project,
    stakes: Seq<Stake>,
    slot: usize,
    args: WithdrawArgs,
)
    requires
        conserved(p, stakes),
    ensures
        conserved(
            applied(p, stakes, Operation::Withdraw(slot, args)).0,
            applied(p, stakes, Operation::Withdraw(slot, args)).1,
        ),
{
    if slot < stakes.len() && withdraw_outcome(p, stakes[slot as int], args) is Ok {
        let s = stakes[slot as int];
        lemma_settlement_keeps_principal(p, s, args.reflection_balance, args.now);
        lemma_total_after_update(stakes, slot as int, withdraw_outcome(p, s, args)->Ok_0.1);
    }
}

/// An emergency return keeps the pool's total equal to the sum of its
/// stakes.
pub proof fn lemma_emergency_return_conserves(
    p: Project,
    stakes: Seq<Stake>,
    slot: usize,
    args: EmergencyReturnArgs,
)
    requires
        conserved(p, stakes),
    ensures
        conserved(
            applied(p, stakes, Operation::EmergencyReturn(slot, args)).0,
            applied(p, stakes, Operation::EmergencyReturn(slot, args)).1,
        ),
{
    if slot < stakes.len() && emergency_return_outcome(p, stakes[slot as int], args) is Ok {
        let s = stakes[slot as int];
        lemma_total_after_update(stakes, slot as int, emergency_return_outcome(p, s, args)->Ok_0.1);
    }
}

/// Whatever is done to a pool, its total stays equal to the sum of its
/// stakes.
pub proof fn lemma_operation_conserves(p: Project, stakes: Seq<Stake>, op: Operation)
    requires
        conserved(p, stakes),
    ensures
        conserved(applied(p, stakes, op).0, applied(p, stakes, op).1),
{
    match op {
        Operation::Deposit(platform, slot, args) => {
            lemma_deposit_conserves(p, stakes, platform, slot, args);
        },
        Operation::Withdraw(slot, args) => {
            lemma_withdraw_conserves(p, stakes, slot, args);
        },
        Operation::Claim(slot, args) => {
            if slot < stakes.len() && claim_outcome(p, stakes[slot as int], args) is Ok {
                let s = stakes[slot as int];
                lemma_settlement_as_observed_is_safe(p, s, args.reflection_balance, args.now);
                lemma_total_after_update(stakes, slot as int, claim_outcome(p, s, args)->Ok_0.1);
            }
        },
        Operation::ClaimReflections(slot, args) => {
            if slot < stakes.len() && claim_reflections_outcome(p, stakes[slot as int], args)
                is Ok {
                let s = stakes[slot as int];
                lemma_settlement_keeps_principal(p, s, Some(args.vault_balance), args.now);
                lemma_total_after_update(
                    stakes,
                    slot as int,
                    claim_reflections_outcome(p, s, args)->Ok_0.1,
                );
            }
        },
        Operation::RefreshReflections(slot, vault_balance, now) => {
            if slot < stakes.len() {
                let s = stakes[slot as int];
                if refresh_outcome(p, s, s.user, s.project, vault_balance, now) is Ok {
                    lemma_total_after_update(
                        stakes,
                        slot as int,
                        refresh_outcome(p, s, s.user, s.project, vault_balance, now)->Ok_0.1,
                    );
                }
            }
        },
        Operation::Settle(slot, reflection_balance, now) => {
            if slot < stakes.len() && settlement(p, stakes[slot as int], reflection_balance, now)
                is Ok {
                let s = stakes[slot as int];
                lemma_settlement_keeps_principal(p, s, reflection_balance, now);
                lemma_total_after_update(
                    stakes,
                    slot as int,
                    settlement(p, s, reflection_balance, now)->Ok_0.1,
                );
            }
        },
        Operation::EmergencyReturn(slot, args) => {
            lemma_emergency_return_conserves(p, stakes, slot, args);
        },
        Operation::DepositRewards(args) => {},
        Operation::SetPoolDuration(args) => {},
    }
}

/// Conservation: after every run of operations on a pool whose total was the
/// sum of its stakes, the total is the sum of its stakes.
pub proof fn lemma_conservation(p: Project, stakes: Seq<Stake>, ops: Seq<Operation>)
    requires
        conserved(p, stakes),
    ensures
        conserved(applied_all(p, stakes, ops).0, applied_all(p, stakes, ops).1),
    decreases ops.len(),
{
    if ops.len() > 0 {
        lemma_conservation(p, stakes, ops.drop_last());
        let before = applied_all(p, stakes, ops.drop_last());
        lemma_operation_conserves(before.0, before.1, ops.last());
    }
}

/// A pool as it is created conserves principal: it has no stakes and a total
/// of zero.
pub proof fn lemma_empty_pool_conserves(p: Project)
    requires
        p.total_staked == 0,
    ensures
        conserved(p, Seq::<Stake>::empty()),
{
}

/// No stake's marker is ahead of the pool's accumulator, for rewards and for
/// reflections alike.
pub open spec fn markers_behind(p: Project, stakes: Seq<Stake>) -> bool {
    forall|i: int|
        0 <= i < stakes.len() ==> marker_behind(p, #[trigger] stakes[i])
}

/// The stake's markers are not ahead of the pool's accumulators.
pub open spec fn marker_behind(p: Project, s: Stake) -> bool {
    &&& s.reward_per_token_paid <= p.reward_per_token_stored
    &&& s.reflection_per_token_paid <= p.reflection_per_token_stored
}

/// A pool whose accumulators have not fallen and one stake of which has been
/// replaced by one that is behind still has all markers behind.
proof fn lemma_markers_after_update(
    p: Project,
    after: Project,
    stakes: Seq<Stake>,
    i: int,
    stake: Stake,
)
    requires
        markers_behind(p, stakes),
        0 <= i < stakes.len(),
        after.reward_per_token_stored >= p.reward_per_token_stored,
        after.reflection_per_token_stored >= p.reflection_per_token_stored,
        marker_behind(after, stake),
    ensures
        markers_behind(after, stakes.update(i, stake)),
{
    assert forall|k: int| 0 <= k < stakes.len() implies marker_behind(
        after,
        #[trigger] stakes.update(i, stake)[k],
    ) by {
        if k != i {
            assert(marker_behind(p, stakes[k]));
        }
    }
}

/// A pool whose accumulators have not fallen still has all markers behind.
proof fn lemma_markers_after_accrual(p: Project, after: Project, stakes: Seq<Stake>)
    requires
        markers_behind(p, stakes),
        after.reward_per_token_stored >= p.reward_per_token_stored,
        after.reflection_per_token_stored >= p.reflection_per_token_stored,
    ensures
        markers_behind(after, stakes),
{
    assert forall|k: int| 0 <= k < stakes.len() implies marker_behind(
        after,
        #[trigger] stakes[k],
    ) by {
        assert(marker_behind(p, stakes[k]));
    }
}

/// A settlement lowers no accumulator and leaves the stake behind the pool.
proof fn lemma_settled_stake_is_behind(
    p: Project,
    s: Stake,
    reflection_balance: Option<u64>,
    now: i64,
)
    requires
        settlement(p, s, reflection_balance, now) is Ok,
        s.reflection_per_token_paid <= p.reflection_per_token_stored,
    ensures
        ({
            let (pool, stake) = settlement(p, s, reflection_balance, now)->Ok_0;
            &&& pool.reward_per_token_stored >= p.reward_per_token_stored
            &&& pool.reflection_per_token_stored >= p.reflection_per_token_stored
            &&& marker_behind(pool, stake)
        }),
{
    lemma_settlement_is_monotonic(p, s, reflection_balance, now);
    lemma_settlement_moves_markers_up(p, s, reflection_balance, now);
}

/// A deposit lowers no accumulator and leaves the stake behind the pool.
proof fn lemma_deposited_stake_is_behind(
    platform: Platform,
    p: Project,
    existing: Option<Stake>,
    args: DepositArgs,
)
    requires
        deposit_outcome(platform, p, existing, args) is Ok,
        existing matches Some(s) ==> marker_behind(p, s),
    ensures
        ({
            let (pool, stake, _) = deposit_outcome(platform, p, existing, args)->Ok_0;
            &&& pool.reward_per_token_stored >= p.reward_per_token_stored
            &&& pool.reflection_per_token_stored >= p.reflection_per_token_stored
            &&& marker_behind(pool, stake)
        }),
{
    lemma_deposit_settlement_is_safe(p, existing, args);
}

/// A withdrawal lowers no accumulator and leaves the stake behind the pool.
proof fn lemma_withdrawn_stake_is_behind(p: Project, s: Stake, args: WithdrawArgs)
    requires
        withdraw_outcome(p, s, args) is Ok,
        marker_behind(p, s),
    ensures
        ({
            let (pool, stake, _) = withdraw_outcome(p, s, args)->Ok_0;
            &&& pool.reward_per_token_stored >= p.reward_per_token_stored
            &&& pool.reflection_per_token_stored >= p.reflection_per_token_stored
            &&& marker_behind(pool, stake)
        }),
{
    lemma_settled_stake_is_behind(p, s, args.reflection_balance, args.now);
}

/// A claim lowers no accumulator and leaves the stake behind the pool.
proof fn lemma_claiming_stake_is_behind(p: Project, s: Stake, args: ClaimArgs)
    requires
        claim_outcome(p, s, args) is Ok,
        marker_behind(p, s),
    ensures
        ({
            let (pool, stake, _) = claim_outcome(p, s, args)->Ok_0;
            &&& pool.reward_per_token_stored >= p.reward_per_token_stored
            &&& pool.reflection_per_token_stored >= p.reflection_per_token_stored
            &&& marker_behind(pool, stake)
        }),
{
    lemma_settlement_as_observed_is_safe(p, s, args.reflection_balance, args.now);
}

/// A claim of reflections lowers no accumulator and leaves the stake behind
/// the pool.
proof fn lemma_reflection_claiming_stake_is_behind(
    p: Project,
    s: Stake,
    args: ClaimReflectionsArgs,
)
    requires
        claim_reflections_outcome(p, s, args) is Ok,
        marker_behind(p, s),
    ensures
        ({
            let (pool, stake, _) = claim_reflections_outcome(p, s, args)->Ok_0;
            &&& pool.reward_per_token_stored >= p.reward_per_token_stored
            &&& pool.reflection_per_token_stored >= p.reflection_per_token_stored
            &&& marker_behind(pool, stake)
        }),
{
    lemma_settled_stake_is_behind(p, s, Some(args.vault_balance), args.now);
}

/// A refresh lowers no accumulator and leaves the stake behind the pool.
proof fn lemma_refreshed_stake_is_behind(p: Project, s: Stake, vault_balance: u64, now: i64)
    requires
        refresh_outcome(p, s, s.user, s.project, vault_balance, now) is Ok,
        marker_behind(p, s),
    ensures
        ({
            let (pool, stake) = refresh_outcome(p, s, s.user, s.project, vault_balance, now)->Ok_0;
            &&& pool.reward_per_token_stored >= p.reward_per_token_stored
            &&& pool.reflection_per_token_stored >= p.reflection_per_token_stored
            &&& marker_behind(pool, stake)
        }),
{
    lemma_reflection_settlement_is_monotonic(p, s, Some(vault_balance), now, true);
}

/// An emergency return lowers no accumulator and leaves the stake behind the
/// pool.
proof fn lemma_returned_stake_is_behind(p: Project, s: Stake, args: EmergencyReturnArgs)
    requires
        emergency_return_outcome(p, s, args) is Ok,
        marker_behind(p, s),
    ensures
        ({
            let (pool, stake, _) = emergency_return_outcome(p, s, args)->Ok_0;
            &&& pool.reward_per_token_stored >= p.reward_per_token_stored
            &&& pool.reflection_per_token_stored >= p.reflection_per_token_stored
            &&& marker_behind(pool, stake)
        }),
{
    lemma_accrual_is_monotonic(p, args.now);
}

/// Funding a pool lowers no accumulator.
proof fn lemma_funding_lowers_nothing(p: Project, args: DepositRewardsArgs)
    requires
        deposit_rewards_outcome(p, args) is Ok,
    ensures
        ({
            let pool = deposit_rewards_outcome(p, args)->Ok_0.0;
            &&& pool.reward_per_token_stored >= p.reward_per_token_stored
            &&& pool.reflection_per_token_stored >= p.reflection_per_token_stored
        }),
{
    lemma_accrual_is_monotonic(p, args.now);
}

/// A new duration lowers no accumulator.
proof fn lemma_new_duration_lowers_nothing(p: Project, args: SetPoolDurationArgs)
    requires
        set_pool_duration_outcome(p, args) is Ok,
    ensures
        ({
            let pool = set_pool_duration_outcome(p, args)->Ok_0.0;
            &&& pool.reward_per_token_stored >= p.reward_per_token_stored
            &&& pool.reflection_per_token_stored >= p.reflection_per_token_stored
        }),
{
    lemma_accrual_is_monotonic(p, args.now);
}

/// Whatever is done to a pool, no stake's marker gets ahead of the pool's
/// accumulators.
pub proof fn lemma_operation_keeps_markers_behind(p: Project, stakes: Seq<Stake>, op: Operation)
    requires
        markers_behind(p, stakes),
    ensures
        markers_behind(applied(p, stakes, op).0, applied(p, stakes, op).1),
{
    match op {
        Operation::Deposit(platform, None, args) => {
            if deposit_outcome(platform, p, None, args) is Ok {
                let (after, stake, _) = deposit_outcome(platform, p, None, args)->Ok_0;
                lemma_deposited_stake_is_behind(platform, p, None, args);
                lemma_markers_after_accrual(p, after, stakes);
                assert forall|k: int| 0 <= k < stakes.push(stake).len() implies marker_behind(
                    after,
                    #[trigger] stakes.push(stake)[k],
                ) by {
                    if k < stakes.len() {
                        assert(marker_behind(after, stakes[k]));
                    }
                }
            }
        },
        Operation::Deposit(platform, Some(i), args) => {
            if i < stakes.len() && deposit_outcome(platform, p, Some(stakes[i as int]), args)
                is Ok {
                let s = stakes[i as int];
                let (after, stake, _) = deposit_outcome(platform, p, Some(s), args)->Ok_0;
                assert(marker_behind(p, s));
                lemma_deposited_stake_is_behind(platform, p, Some(s), args);
                lemma_markers_after_update(p, after, stakes, i as int, stake);
            }
        },
        Operation::Withdraw(slot, args) => {
            if slot < stakes.len() && withdraw_outcome(p, stakes[slot as int], args) is Ok {
                let s = stakes[slot as int];
                let (after, stake, _) = withdraw_outcome(p, s, args)->Ok_0;
                assert(marker_behind(p, s));
                lemma_withdrawn_stake_is_behind(p, s, args);
                lemma_markers_after_update(p, after, stakes, slot as int, stake);
            }
        },
        Operation::Claim(slot, args) => {
            if slot < stakes.len() && claim_outcome(p, stakes[slot as int], args) is Ok {
                let s = stakes[slot as int];
                let (after, stake, _) = claim_outcome(p, s, args)->Ok_0;
                assert(marker_behind(p, s));
                lemma_claiming_stake_is_behind(p, s, args);
                lemma_markers_after_update(p, after, stakes, slot as int, stake);
            }
        },
        Operation::ClaimReflections(slot, args) => {
            if slot < stakes.len() && claim_reflections_outcome(p, stakes[slot as int], args)
                is Ok {
                let s = stakes[slot as int];
                let (after, stake, _) = claim_reflections_outcome(p, s, args)->Ok_0;
                assert(marker_behind(p, s));
                lemma_reflection_claiming_stake_is_behind(p, s, args);
                lemma_markers_after_update(p, after, stakes, slot as int, stake);
            }
        },
        Operation::RefreshReflections(slot, vault_balance, now) => {
            if slot < stakes.len() {
                let s = stakes[slot as int];
                if refresh_outcome(p, s, s.user, s.project, vault_balance, now) is Ok {
                    let (after, stake) = refresh_outcome(
                        p,
                        s,
                        s.user,
                        s.project,
                        vault_balance,
                        now,
                    )->Ok_0;
                    assert(marker_behind(p, s));
                    lemma_refreshed_stake_is_behind(p, s, vault_balance, now);
                    lemma_markers_after_update(p, after, stakes, slot as int, stake);
                }
            }
        },
        Operation::Settle(slot, reflection_balance, now) => {
            if slot < stakes.len() && settlement(p, stakes[slot as int], reflection_balance, now)
                is Ok {
                let s = stakes[slot as int];
                let (after, stake) = settlement(p, s, reflection_balance, now)->Ok_0;
                assert(marker_behind(p, s));
                lemma_settled_stake_is_behind(p, s, reflection_balance, now);
                lemma_markers_after_update(p, after, stakes, slot as int, stake);
            }
        },
        Operation::EmergencyReturn(slot, args) => {
            if slot < stakes.len() && emergency_return_outcome(p, stakes[slot as int], args)
                is Ok {
                let s = stakes[slot as int];
                let (after, stake, _) = emergency_return_outcome(p, s, args)->Ok_0;
                assert(marker_behind(p, s));
                lemma_returned_stake_is_behind(p, s, args);
                lemma_markers_after_update(p, after, stakes, slot as int, stake);
            }
        },
        Operation::DepositRewards(args) => {
            if deposit_rewards_outcome(p, args) is Ok {
                lemma_funding_lowers_nothing(p, args);
                lemma_markers_after_accrual(p, deposit_rewards_outcome(p, args)->Ok_0.0, stakes);
            }
        },
        Operation::SetPoolDuration(args) => {
            if set_pool_duration_outcome(p, args) is Ok {
                lemma_new_duration_lowers_nothing(p, args);
                lemma_markers_after_accrual(p, set_pool_duration_outcome(p, args)->Ok_0.0, stakes);
            }
        },
    }
}

/// After every run of operations on a pool none of whose stakes had a marker
/// ahead of the pool's accumulators, none has.
pub proof fn lemma_markers_stay_behind(p: Project, stakes: Seq<Stake>, ops: Seq<Operation>)
    requires
        markers_behind(p, stakes),
    ensures
        markers_behind(applied_all(p, stakes, ops).0, applied_all(p, stakes, ops).1),
    decreases ops.len(),
{
    if ops.len() > 0 {
        lemma_markers_stay_behind(p, stakes, ops.drop_last());
        let before = applied_all(p, stakes, ops.drop_last());
        lemma_operation_keeps_markers_behind(before.0, before.1, ops.last());
    }
}

/// What a stake behind its pool earns is the plain difference of accumulator
/// and marker, times its principal: nothing is cut off.
pub proof fn lemma_earnings_are_exact(p: Project, s: Stake)
    requires
        marker_behind(p, s),
    ensures
        earned_rewards(s, p.reward_per_token_stored) == mul_div_floor(
            s.amount as int,
            p.reward_per_token_stored - s.reward_per_token_paid,
            PRECISION as int,
        ),
        gross_reflections(s, p.reflection_per_token_stored) == mul_div_floor(
            p.reflection_per_token_stored - s.reflection_per_token_paid,
            s.amount as int,
            PRECISION as int,
        ),
{
    let amount = s.amount as int;
    assert((amount * 0) / (PRECISION as int) == 0) by (nonlinear_arith)
        requires
            PRECISION == 1_000_000_000,
    ;
    assert((0 * amount) / (PRECISION as int) == 0) by (nonlinear_arith)
        requires
            PRECISION == 1_000_000_000,
    ;
    assert((0 * (p.reward_per_token_stored - s.reward_per_token_paid)) / (PRECISION as int) == 0)
        by (nonlinear_arith)
        requires
            PRECISION == 1_000_000_000,
    ;
}

/// An operation on one stake that begins with a settlement lowers neither
/// accumulator, as the settlement lowers none and nothing after it touches
/// them.
proof fn lemma_settling_lowers_no_accumulator(
    p: Project,
    s: Stake,
    reflection_balance: Option<u64>,
    now: i64,
)
    requires
        settlement(p, s, reflection_balance, now) is Ok,
    ensures
        ({
            let pool = settlement(p, s, reflection_balance, now)->Ok_0.0;
            &&& pool.reward_per_token_stored >= p.reward_per_token_stored
            &&& pool.reflection_per_token_stored >= p.reflection_per_token_stored
        }),
{
    lemma_settlement_is_monotonic(p, s, reflection_balance, now);
}

/// Whatever is done to a pool, neither of its accumulators decreases.
pub proof fn lemma_operation_lowers_no_accumulator(p: Project, stakes: Seq<Stake>, op: Operation)
    ensures
        applied(p, stakes, op).0.reward_per_token_stored >= p.reward_per_token_stored,
        applied(p, stakes, op).0.reflection_per_token_stored >= p.reflection_per_token_stored,
{
    match op {
        Operation::Deposit(platform, None, args) => {
            if deposit_outcome(platform, p, None, args) is Ok {
                lemma_deposit_settlement_is_safe(p, None, args);
            }
        },
        Operation::Deposit(platform, Some(i), args) => {
            if i < stakes.len() && deposit_outcome(platform, p, Some(stakes[i as int]), args)
                is Ok {
                lemma_settling_lowers_no_accumulator(
                    p,
                    stakes[i as int],
                    args.reflection_balance,
                    args.now,
                );
            }
        },
        Operation::Withdraw(slot, args) => {
            if slot < stakes.len() && withdraw_outcome(p, stakes[slot as int], args) is Ok {
                lemma_settling_lowers_no_accumulator(
                    p,
                    stakes[slot as int],
                    args.reflection_balance,
                    args.now,
                );
            }
        },
        Operation::Claim(slot, args) => {
            if slot < stakes.len() && claim_outcome(p, stakes[slot as int], args) is Ok {
                lemma_settlement_as_observed_is_safe(
                    p,
                    stakes[slot as int],
                    args.reflection_balance,
                    args.now,
                );
            }
        },
        Operation::ClaimReflections(slot, args) => {
            if slot < stakes.len() && claim_reflections_outcome(p, stakes[slot as int], args)
                is Ok {
                lemma_settling_lowers_no_accumulator(
                    p,
                    stakes[slot as int],
                    Some(args.vault_balance),
                    args.now,
                );
            }
        },
        Operation::RefreshReflections(slot, vault_balance, now) => {
            if slot < stakes.len() {
                let s = stakes[slot as int];
                if refresh_outcome(p, s, s.user, s.project, vault_balance, now) is Ok {
                    lemma_reflection_settlement_is_monotonic(p, s, Some(vault_balance), now, true);
                }
            }
        },
        Operation::Settle(slot, reflection_balance, now) => {
            if slot < stakes.len() && settlement(p, stakes[slot as int], reflection_balance, now)
                is Ok {
                lemma_settling_lowers_no_accumulator(
                    p,
                    stakes[slot as int],
                    reflection_balance,
                    now,
                );
            }
        },
        Operation::EmergencyReturn(slot, args) => {
            lemma_accrual_is_monotonic(p, args.now);
        },
        Operation::DepositRewards(args) => {
            lemma_accrual_is_monotonic(p, args.now);
        },
        Operation::SetPoolDuration(args) => {
            lemma_accrual_is_monotonic(p, args.now);
        },
    }
}

/// Monotonic accumulators: over any run of operations on a pool, neither
/// accumulator ever decreases.
pub proof fn lemma_accumulators_never_decrease(
    p: Project,
    stakes: Seq<Stake>,
    ops: Seq<Operation>,
)
    ensures
        applied_all(p, stakes, ops).0.reward_per_token_stored >= p.reward_per_token_stored,
        applied_all(p, stakes, ops).0.reflection_per_token_stored >= p.reflection_per_token_stored,
    decreases ops.len(),
{
    if ops.len() > 0 {
        lemma_accumulators_never_decrease(p, stakes, ops.drop_last());
        let before = applied_all(p, stakes, ops.drop_last());
        lemma_operation_lowers_no_accumulator(before.0, before.1, ops.last());
    }
}

/// What is pending for a stake only grows, but for a claim that succeeds:
/// that, and nothing else, brings it down, and brings it down to nothing.
pub proof fn lemma_pending_falls_only_by_claim(
    p: Project,
    stakes: Seq<Stake>,
    op: Operation,
    k: int,
)
    requires
        0 <= k < stakes.len(),
    ensures
        ({
            let after = applied(p, stakes, op).1;
            &&& after.len() >= stakes.len()
            &&& after[k].rewards_pending >= stakes[k].rewards_pending || {
                &&& op matches Operation::Claim(slot, _)
                &&& slot == k
                &&& after[k].rewards_pending == 0
            }
            &&& after[k].reflections_pending >= stakes[k].reflections_pending || {
                &&& op matches Operation::ClaimReflections(slot, _)
                &&& slot == k
                &&& after[k].reflections_pending == 0
            }
        }),
{
    match op {
        Operation::Deposit(platform, None, args) => {},
        Operation::Deposit(platform, Some(i), args) => {
            if i == k && deposit_outcome(platform, p, Some(stakes[k]), args) is Ok {
                lemma_settlement_is_monotonic(p, stakes[k], args.reflection_balance, args.now);
            }
        },
        Operation::Withdraw(slot, args) => {
            if slot == k && withdraw_outcome(p, stakes[k], args) is Ok {
                lemma_settlement_is_monotonic(p, stakes[k], args.reflection_balance, args.now);
            }
        },
        Operation::Claim(slot, args) => {
            if slot == k && claim_outcome(p, stakes[k], args) is Ok {
                lemma_settlement_as_observed_is_safe(p, stakes[k], args.reflection_balance, args.now);
            }
        },
        Operation::ClaimReflections(slot, args) => {
            if slot == k && claim_reflections_outcome(p, stakes[k], args) is Ok {
                lemma_settlement_is_monotonic(p, stakes[k], Some(args.vault_balance), args.now);
            }
        },
        Operation::RefreshReflections(slot, vault_balance, now) => {
            let s = stakes[k];
            if slot == k && refresh_outcome(p, s, s.user, s.project, vault_balance, now) is Ok {
                lemma_reflection_settlement_is_monotonic(p, s, Some(vault_balance), now, true);
            }
        },
        Operation::Settle(slot, reflection_balance, now) => {
            if slot == k && settlement(p, stakes[k], reflection_balance, now) is Ok {
                lemma_settlement_is_monotonic(p, stakes[k], reflection_balance, now);
            }
        },
        Operation::EmergencyReturn(slot, args) => {
            if slot == k && emergency_return_outcome(p, stakes[k], args) is Ok {
                lemma_credit_is_monotonic(
                    stakes[k],
                    accrued(p, args.now).reward_per_token_stored,
                );
            }
        },
        Operation::DepositRewards(args) => {},
        Operation::SetPoolDuration(args) => {},
    }
}

} // verus!

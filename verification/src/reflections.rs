//! The reflection engine: yield skimmed from the growth of a vault.
//!
//! Reflections are not emitted at a rate. They arrive from outside, between
//! operations, as an increase of the balance of the pool's reflection vault.
//! A settlement is handed the balance observed now. Growth since the last
//! observation is shared among the staked units by raising
//! `reflection_per_token_stored`; a balance below the last observation means
//! that somebody took assets out, and only moves the baseline down.

use crate::address::{Address, AssetKind};
use crate::errors::ErrorCode;
use crate::math::{mul_div, mul_div_floor, PRECISION};
use crate::state::{Project, Stake};
use vstd::prelude::*;

verus! {

/// What a native vault keeps back from distribution on top of its rent.
pub const NATIVE_RESERVE: u64 = 3_000_000;

/// Where the amount of a token account record starts.
pub const TOKEN_AMOUNT_OFFSET: usize = 64;

/// The length a token account record must at least have to hold its amount.
pub const TOKEN_AMOUNT_END: usize = 72;

/// The part of a native vault's balance that may be distributed: what exceeds
/// the rent-exempt minimum and the reserve.
pub open spec fn native_distributable(lamports: u64, rent_exempt_minimum: u64) -> int {
    let reserve = if rent_exempt_minimum + NATIVE_RESERVE > u64::MAX {
        u64::MAX as int
    } else {
        rent_exempt_minimum + NATIVE_RESERVE
    };
    if lamports > reserve {
        lamports - reserve
    } else {
        0
    }
}

/// Computes the distributable part of a native vault's balance.
pub fn native_distributable_balance(lamports: u64, rent_exempt_minimum: u64) -> (r: u64)
    ensures
        r == native_distributable(lamports, rent_exempt_minimum),
{
    let reserve = rent_exempt_minimum.saturating_add(NATIVE_RESERVE);
    lamports.saturating_sub(reserve)
}

/// The number that eight bytes starting at `at` encode, least significant
/// byte first.
pub open spec fn le_u64_at(data: Seq<u8>, at: int) -> int {
    data[at] + data[at + 1] * 0x100 + data[at + 2] * 0x1_0000 + data[at + 3] * 0x100_0000 + data[at
        + 4] * 0x1_0000_0000 + data[at + 5] * 0x100_0000_0000 + data[at + 6] * 0x1_0000_0000_0000
        + data[at + 7] * 0x100_0000_0000_0000
}

/// The amount that a token account record holds, if the record is long
/// enough to hold one.
pub open spec fn token_amount(data: Seq<u8>) -> Option<u64> {
    if data.len() >= TOKEN_AMOUNT_END {
        Some(le_u64_at(data, TOKEN_AMOUNT_OFFSET as int) as u64)
    } else {
        None
    }
}

/// Reads the amount out of a token account record: the 64-bit little-endian
/// number at bytes 64 to 71. Gives `None` exactly when the record is shorter
/// than 72 bytes.
pub fn token_account_amount(data: &[u8]) -> (r: Option<u64>)
    ensures
        r == token_amount(data@),
        r matches Some(v) ==> v == le_u64_at(data@, TOKEN_AMOUNT_OFFSET as int),
{
    if data.len() < TOKEN_AMOUNT_END {
        return None;
    }
    let at = TOKEN_AMOUNT_OFFSET;
    let low: u64 = data[at] as u64 + data[at + 1] as u64 * 0x100 + data[at + 2] as u64 * 0x1_0000
        + data[at + 3] as u64 * 0x100_0000;
    let high: u64 = data[at + 4] as u64 + data[at + 5] as u64 * 0x100 + data[at + 6] as u64
        * 0x1_0000 + data[at + 7] as u64 * 0x100_0000;
    Some(low + high * 0x1_0000_0000)
}

/// The balance of a reflection vault that counts for distribution.
///
/// A native vault counts with what exceeds rent and reserve; a token vault
/// with the amount in its record, which must be long enough to hold one.
pub open spec fn observed_balance(
    kind: AssetKind,
    lamports: u64,
    rent_exempt_minimum: u64,
    data: Seq<u8>,
) -> Result<u64, ErrorCode> {
    match kind {
        AssetKind::Native => Ok(native_distributable(lamports, rent_exempt_minimum) as u64),
        AssetKind::Fungible(_) => match token_amount(data) {
            Some(amount) => Ok(amount),
            None => Err(ErrorCode::InvalidReflectionVault),
        },
    }
}

/// Observes the distributable balance of a reflection vault of the given
/// kind. Fails with `InvalidReflectionVault` exactly when the vault holds a
/// token and its record is shorter than 72 bytes.
pub fn observe_reflection_balance(
    kind: &AssetKind,
    lamports: u64,
    rent_exempt_minimum: u64,
    data: &[u8],
) -> (r: Result<u64, ErrorCode>)
    ensures
        r == observed_balance(*kind, lamports, rent_exempt_minimum, data@),
{
    match kind {
        AssetKind::Native => Ok(native_distributable_balance(lamports, rent_exempt_minimum)),
        AssetKind::Fungible(_) => match token_account_amount(data) {
            Some(amount) => Ok(amount),
            None => Err(ErrorCode::InvalidReflectionVault),
        },
    }
}

/// The account from which an operation reads the balance of the pool's
/// reflection vault.
#[derive(Clone, Copy, Debug, PartialEq, Eq)]
pub enum ReflectionSource {
    /// No balance is read: reflections are left as they are.
    Unobserved,
    /// The vault that the caller supplied, which holds an asset of this kind.
    Supplied(AssetKind),
    /// The pool's own account, which gathers the native asset.
    PoolAccount,
}

/// Where an operation observes reflections, given the vault that the caller
/// supplied, if any.
///
/// A vault that is supplied must be the one the pool is configured with. A
/// pool that accounts for no reflections observes none. Where no vault is
/// supplied and `pool_stands_in` is set, the pool's own account is observed
/// if it is the configured vault and reflections arrive in the native asset.
pub open spec fn reflection_source(
    p: Project,
    project_key: Address,
    supplied: Option<Address>,
    pool_stands_in: bool,
) -> Result<ReflectionSource, ErrorCode> {
    if supplied is Some && p.reflection_vault != supplied {
        Err(ErrorCode::InvalidReflectionVault)
    } else if !p.reflections_active() {
        Ok(ReflectionSource::Unobserved)
    } else if supplied is Some {
        Ok(ReflectionSource::Supplied(AssetKind::of(p.reflection_token->Some_0)))
    } else if pool_stands_in && AssetKind::of(p.reflection_token->Some_0) is Native
        && p.reflection_vault == Some(project_key) {
        Ok(ReflectionSource::PoolAccount)
    } else {
        Ok(ReflectionSource::Unobserved)
    }
}

/// Decides where an operation observes reflections.
pub fn reflection_source_for(
    project: &Project,
    project_key: &Address,
    supplied: Option<Address>,
    pool_stands_in: bool,
) -> (r: Result<ReflectionSource, ErrorCode>)
    ensures
        r == reflection_source(*project, *project_key, supplied, pool_stands_in),
        r matches Ok(ReflectionSource::Supplied(_)) ==> supplied is Some,
{
    match supplied {
        Some(vault) => {
            if project.reflection_vault != Some(vault) {
                return Err(ErrorCode::InvalidReflectionVault);
            }
        },
        None => {},
    }
    let token = match project.reflection_token {
        Some(token) => token,
        None => {
            return Ok(ReflectionSource::Unobserved);
        },
    };
    if !project.enable_reflections {
        return Ok(ReflectionSource::Unobserved);
    }
    let kind = AssetKind::of_mint(&token);
    if supplied.is_some() {
        Ok(ReflectionSource::Supplied(kind))
    } else if pool_stands_in && kind.is_native() && project.reflection_vault == Some(
        *project_key,
    ) {
        Ok(ReflectionSource::PoolAccount)
    } else {
        Ok(ReflectionSource::Unobserved)
    }
}

/// By how much an observation of `observed` raises
/// `reflection_per_token_stored`: the growth of the balance, scaled, per
/// staked unit. Nothing is distributed while nothing is staked.
pub open spec fn reflection_accrual(p: Project, observed: u64) -> int {
    if observed > p.last_reflection_balance && p.total_staked > 0 {
        mul_div_floor(
            observed - p.last_reflection_balance,
            PRECISION as int,
            p.total_staked as int,
        )
    } else {
        0
    }
}

/// Whether the accumulator still fits 64 bits after the observation.
pub open spec fn observation_fits(p: Project, observed: u64) -> bool {
    p.reflection_per_token_stored + reflection_accrual(p, observed) <= u64::MAX
}

/// The pool after the balance `observed` has been taken in at `now`.
///
/// A lower balance resets the baseline. A higher one is distributed and
/// becomes the baseline if anything is staked. Otherwise nothing changes.
pub open spec fn observed_project(p: Project, observed: u64, now: i64) -> Project {
    if observed < p.last_reflection_balance {
        Project { last_reflection_balance: observed, last_reflection_update_time: now, ..p }
    } else if observed > p.last_reflection_balance && p.total_staked > 0 {
        Project {
            reflection_per_token_stored: (p.reflection_per_token_stored + reflection_accrual(
                p,
                observed,
            )) as u64,
            last_reflection_balance: observed,
            last_reflection_update_time: now,
            ..p
        }
    } else {
        p
    }
}

/// What a stake has earned since its marker, before its debt is withheld.
pub open spec fn gross_reflections(s: Stake, stored: u64) -> int {
    if stored > s.reflection_per_token_paid {
        mul_div_floor(stored - s.reflection_per_token_paid, s.amount as int, PRECISION as int)
    } else {
        0
    }
}

/// What a stake is credited with: its earnings less its debt, but not less
/// than nothing.
pub open spec fn net_reflections(s: Stake, stored: u64) -> int {
    if gross_reflections(s, stored) > s.reflection_debt {
        gross_reflections(s, stored) - s.reflection_debt
    } else {
        0
    }
}

/// Whether crediting the stake overflows nowhere.
pub open spec fn reflection_credit_fits(s: Stake, stored: u64) -> bool {
    s.amount > 0 ==> gross_reflections(s, stored) <= u64::MAX && s.reflections_pending
        + net_reflections(s, stored) <= u64::MAX
}

/// The stake after it has been credited against the accumulator `stored`.
/// A stake without principal is left alone.
pub open spec fn reflection_credited(s: Stake, stored: u64, update_marker: bool) -> Stake {
    if s.amount > 0 {
        Stake {
            reflections_pending: (s.reflections_pending + net_reflections(s, stored)) as u64,
            reflection_debt: 0,
            reflection_per_token_paid: if update_marker {
                stored
            } else {
                s.reflection_per_token_paid
            },
            ..s
        }
    } else {
        s
    }
}

/// What a reflection settlement does to pool and stake, or why it fails.
///
/// `observed` is the distributable balance of the reflection vault, or `None`
/// if the caller supplied no vault.
pub open spec fn reflection_outcome(
    p: Project,
    s: Stake,
    observed: Option<u64>,
    now: i64,
    update_marker: bool,
) -> Result<(Project, Stake), ErrorCode> {
    if !p.reflections_active() {
        Ok((p, s))
    } else {
        match observed {
            None => Err(ErrorCode::ReflectionVaultRequired),
            Some(balance) => {
                let pool = observed_project(p, balance, now);
                if balance < p.last_reflection_balance {
                    Ok((pool, s))
                } else if !observation_fits(p, balance) {
                    Err(ErrorCode::MathOverflow)
                } else if !reflection_credit_fits(s, pool.reflection_per_token_stored) {
                    Err(ErrorCode::MathOverflow)
                } else {
                    Ok(
                        (
                            pool,
                            reflection_credited(s, pool.reflection_per_token_stored, update_marker),
                        ),
                    )
                }
            },
        }
    }
}

/// Credits a stake with its reflections against the pool's accumulator.
fn credit_reflections(project: &Project, stake: &mut Stake, update_marker: bool) -> (r: Result<
    (),
    ErrorCode,
>)
    ensures
        reflection_credit_fits(*old(stake), project.reflection_per_token_stored) ==> {
            &&& r is Ok
            &&& *final(stake) == reflection_credited(
                *old(stake),
                project.reflection_per_token_stored,
                update_marker,
            )
        },
        !reflection_credit_fits(*old(stake), project.reflection_per_token_stored) ==> {
            &&& r matches Err(ErrorCode::MathOverflow)
            &&& *final(stake) == *old(stake)
        },
{
    if stake.amount == 0 {
        return Ok(());
    }
    let mut gross: u64 = 0;
    if project.reflection_per_token_stored > stake.reflection_per_token_paid {
        let diff = project.reflection_per_token_stored - stake.reflection_per_token_paid;
        match mul_div(diff, stake.amount, PRECISION) {
            Ok(g) => {
                gross = g;
            },
            Err(_) => {
                return Err(ErrorCode::MathOverflow);
            },
        }
    }
    let net = gross.saturating_sub(stake.reflection_debt);
    match stake.reflections_pending.checked_add(net) {
        Some(pending) => {
            stake.reflections_pending = pending;
            stake.reflection_debt = 0;
            if update_marker {
                stake.reflection_per_token_paid = project.reflection_per_token_stored;
            }
            Ok(())
        },
        None => Err(ErrorCode::MathOverflow),
    }
}

/// Settles reflections against the observed vault balance.
///
/// Does nothing in a pool without reflections. Otherwise the balance is
/// taken in as [`observed_project`] says and, unless it has dropped, the
/// stake is credited as [`reflection_credited`] says; the stake's marker
/// moves up only if `update_user_paid_marker` is set. Fails with
/// `ReflectionVaultRequired` if nothing was observed and with `MathOverflow`
/// if the accumulator, the earnings or the pending reflections would not fit
/// 64 bits; pool and stake are then unchanged.
pub fn update_reflection_internal(
    project: &mut Project,
    stake: &mut Stake,
    observed: Option<u64>,
    now: i64,
    update_user_paid_marker: bool,
) -> (r: Result<(), ErrorCode>)
    ensures
        match reflection_outcome(
            *old(project),
            *old(stake),
            observed,
            now,
            update_user_paid_marker,
        ) {
            Ok((p, s)) => {
                &&& r is Ok
                &&& *final(project) == p
                &&& *final(stake) == s
            },
            Err(e) => {
                &&& r is Err && r->Err_0 == e
                &&& *final(project) == *old(project)
                &&& *final(stake) == *old(stake)
            },
        },
        final(project).reflection_per_token_stored >= old(project).reflection_per_token_stored,
        final(stake).reflections_pending >= old(stake).reflections_pending,
        old(project).well_formed() ==> final(project).well_formed(),
{
    proof {
        if reflection_outcome(*project, *stake, observed, now, update_user_paid_marker) is Ok {
            lemma_reflection_settlement_is_monotonic(
                *project,
                *stake,
                observed,
                now,
                update_user_paid_marker,
            );
        }
    }
    if !project.has_reflections() {
        return Ok(());
    }
    let balance = match observed {
        Some(balance) => balance,
        None => {
            return Err(ErrorCode::ReflectionVaultRequired);
        },
    };
    if balance < project.last_reflection_balance {
        project.last_reflection_balance = balance;
        project.last_reflection_update_time = now;
        return Ok(());
    }
    let mut pool = *project;
    if balance > pool.last_reflection_balance && pool.total_staked > 0 {
        let grown = balance - pool.last_reflection_balance;
        let per_token = match mul_div(grown, PRECISION, pool.total_staked) {
            Ok(per_token) => per_token,
            Err(_) => {
                return Err(ErrorCode::MathOverflow);
            },
        };
        match pool.reflection_per_token_stored.checked_add(per_token) {
            Some(stored) => {
                pool.reflection_per_token_stored = stored;
            },
            None => {
                return Err(ErrorCode::MathOverflow);
            },
        }
        pool.last_reflection_balance = balance;
        pool.last_reflection_update_time = now;
    }
    match credit_reflections(&pool, stake, update_user_paid_marker) {
        Ok(()) => {},
        Err(e) => {
            return Err(e);
        },
    }
    *project = pool;
    Ok(())
}

/// Settles reflections and moves the stake's marker up: what every
/// operation of the ledger does before it touches principal.
pub fn update_reflection(
    project: &mut Project,
    stake: &mut Stake,
    observed: Option<u64>,
    now: i64,
) -> (r: Result<(), ErrorCode>)
    ensures
        match reflection_outcome(*old(project), *old(stake), observed, now, true) {
            Ok((p, s)) => {
                &&& r is Ok
                &&& *final(project) == p
                &&& *final(stake) == s
            },
            Err(e) => {
                &&& r is Err && r->Err_0 == e
                &&& *final(project) == *old(project)
                &&& *final(stake) == *old(stake)
            },
        },
        final(project).reflection_per_token_stored >= old(project).reflection_per_token_stored,
        final(stake).reflections_pending >= old(stake).reflections_pending,
        old(project).well_formed() ==> final(project).well_formed(),
{
    proof {
        if reflection_outcome(*project, *stake, observed, now, true) is Ok {
            lemma_reflection_settlement_is_monotonic(*project, *stake, observed, now, true);
        }
    }
    update_reflection_internal(project, stake, observed, now, true)
}

/// An observation never takes anything back: it cannot lower the
/// accumulator, whether the balance grew, stayed or dropped.
pub proof fn lemma_observation_is_monotonic(p: Project, observed: u64, now: i64)
    ensures
        0 <= reflection_accrual(p, observed),
        observed < p.last_reflection_balance ==>
            observed_project(p, observed, now).reflection_per_token_stored
                == p.reflection_per_token_stored,
        observation_fits(p, observed) ==>
            observed_project(p, observed, now).reflection_per_token_stored
                >= p.reflection_per_token_stored,
{
    if observed > p.last_reflection_balance && p.total_staked > 0 {
        let grown = observed - p.last_reflection_balance;
        let staked = p.total_staked as int;
        assert(0 <= (grown * PRECISION) / staked) by (nonlinear_arith)
            requires
                0 <= grown,
                staked > 0,
                PRECISION == 1_000_000_000,
        ;
    }
}

/// Taking in the same balance twice is taking it in once.
pub proof fn lemma_observation_is_idempotent(p: Project, observed: u64, now: i64)
    requires
        observation_fits(p, observed),
    ensures
        observation_fits(observed_project(p, observed, now), observed),
        observed_project(observed_project(p, observed, now), observed, now) == observed_project(
            p,
            observed,
            now,
        ),
{
}

/// A credit never takes anything back from a stake.
pub proof fn lemma_reflection_credit_is_monotonic(s: Stake, stored: u64, update_marker: bool)
    ensures
        0 <= gross_reflections(s, stored),
        0 <= net_reflections(s, stored) <= gross_reflections(s, stored),
        reflection_credit_fits(s, stored) ==>
            reflection_credited(s, stored, update_marker).reflections_pending
                >= s.reflections_pending,
{
    if stored > s.reflection_per_token_paid {
        let diff = stored - s.reflection_per_token_paid;
        let amount = s.amount as int;
        assert(0 <= (diff * amount) / (PRECISION as int)) by (nonlinear_arith)
            requires
                0 <= diff,
                0 <= amount,
                PRECISION == 1_000_000_000,
        ;
    }
}

/// When the observed balance has dropped, the settlement succeeds, the
/// baseline becomes exactly the lower balance, and nothing else moves: not
/// the accumulator, and nothing of the stake.
pub proof fn lemma_balance_drop_resets_baseline(
    p: Project,
    s: Stake,
    observed: u64,
    now: i64,
    update_marker: bool,
)
    requires
        p.reflections_active(),
        observed < p.last_reflection_balance,
    ensures
        ({
            let outcome = reflection_outcome(p, s, Some(observed), now, update_marker);
            let reset = Project {
                last_reflection_balance: observed,
                last_reflection_update_time: now,
                ..p
            };
            outcome is Ok && outcome->Ok_0 == (reset, s)
        }),
{
}

/// Whatever is observed, a settlement that succeeds lowers neither the
/// accumulator nor the stake's pending reflections.
pub proof fn lemma_reflection_settlement_is_monotonic(
    p: Project,
    s: Stake,
    observed: Option<u64>,
    now: i64,
    update_marker: bool,
)
    requires
        reflection_outcome(p, s, observed, now, update_marker) is Ok,
    ensures
        ({
            let (pool, stake) = reflection_outcome(p, s, observed, now, update_marker)->Ok_0;
            &&& pool.reflection_per_token_stored >= p.reflection_per_token_stored
            &&& stake.reflections_pending >= s.reflections_pending
        }),
{
    if p.reflections_active() && observed is Some {
        let balance = observed->Some_0;
        lemma_observation_is_monotonic(p, balance, now);
        lemma_reflection_credit_is_monotonic(
            s,
            observed_project(p, balance, now).reflection_per_token_stored,
            update_marker,
        );
    }
}

/// Settling twice against the same balance is settling once, provided the
/// stake's marker is moved up and the balance has not dropped: the second
/// settlement succeeds and changes neither pool nor stake.
///
/// After a drop the first settlement credits nothing, so a second one may
/// still credit what the stake had earned before.
pub proof fn lemma_reflection_settlement_is_idempotent(
    p: Project,
    s: Stake,
    observed: Option<u64>,
    now: i64,
)
    requires
        reflection_outcome(p, s, observed, now, true) is Ok,
        observed matches Some(balance) ==> balance >= p.last_reflection_balance,
    ensures
        ({
            let (pool, stake) = reflection_outcome(p, s, observed, now, true)->Ok_0;
            let again = reflection_outcome(pool, stake, observed, now, true);
            again is Ok && again->Ok_0 == (pool, stake)
        }),
{
    if p.reflections_active() {
        let balance = observed->Some_0;
        lemma_observation_is_idempotent(p, balance, now);
    }
}

} // verus!

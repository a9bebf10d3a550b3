//! Fees: what a deposit keeps back, and who receives it.

use crate::address::Address;
use crate::errors::ErrorCode;
use crate::math::{bps_of, bps_share, BPS_DENOMINATOR};
use vstd::prelude::*;

verus! {

/// What a payer must keep in the native asset after the flat fee.
pub const RENT_MINIMUM: u64 = 890_880;

/// A deposit as it is parted between principal and fee.
#[derive(Clone, Copy, Debug, PartialEq, Eq, Structural)]
pub struct DepositQuote {
    /// What goes to the staking vault.
    pub net: u64,
    /// What is kept back as a fee.
    pub fee: u64,
}

/// A fee as it is parted between the fee collector and the referrer.
#[derive(Clone, Copy, Debug, PartialEq, Eq, Structural)]
pub struct FeeSplit {
    pub collector: u64,
    pub referrer: u64,
}

/// How `gross` is parted at a fee of `fee_bps` basis points: the fee is
/// `floor(gross * fee_bps / 10000)`, rounded in the depositor's favour, and
/// the rest is principal. The product is formed in 64 bits, and a fee above
/// the deposit is an overflow.
pub open spec fn quote(gross: u64, fee_bps: u64) -> Result<DepositQuote, ErrorCode> {
    if gross * fee_bps > u64::MAX {
        Err(ErrorCode::MathOverflow)
    } else if bps_share(gross as int, fee_bps as int) > gross {
        Err(ErrorCode::MathOverflow)
    } else {
        Ok(
            (DepositQuote {
                net: (gross - bps_share(gross as int, fee_bps as int)) as u64,
                fee: bps_share(gross as int, fee_bps as int) as u64,
            }),
        )
    }
}

/// Parts a deposit of `gross` into principal and fee.
pub fn quote_deposit(gross: u64, fee_bps: u64) -> (r: Result<DepositQuote, ErrorCode>)
    ensures
        r == quote(gross, fee_bps),
{
    let fee = match bps_of(gross, fee_bps) {
        Ok(fee) => fee,
        Err(e) => {
            return Err(e);
        },
    };
    match gross.checked_sub(fee) {
        Some(net) => Ok(DepositQuote { net, fee }),
        None => Err(ErrorCode::MathOverflow),
    }
}

/// Who receives a fee.
///
/// The referrer has a share only if the pool has one configured and the
/// caller supplied one; the two must then be the same. The share is
/// `floor(fee * split_bps / 10000)` and the collector receives the rest, so
/// that what rounding leaves over stays with the collector. A fee of nothing
/// is routed nowhere and nothing about the referrer is checked.
pub open spec fn routing(
    fee: u64,
    configured: Option<Address>,
    split_bps: u64,
    supplied: Option<Address>,
) -> Result<FeeSplit, ErrorCode> {
    if fee == 0 {
        Ok(FeeSplit { collector: 0, referrer: 0 })
    } else if configured is Some && supplied is Some {
        if configured->Some_0 != supplied->Some_0 {
            Err(ErrorCode::InvalidReferrer)
        } else if fee * split_bps > u64::MAX {
            Err(ErrorCode::MathOverflow)
        } else if bps_share(fee as int, split_bps as int) > fee {
            Err(ErrorCode::MathOverflow)
        } else {
            Ok(
                (FeeSplit {
                    collector: (fee - bps_share(fee as int, split_bps as int)) as u64,
                    referrer: bps_share(fee as int, split_bps as int) as u64,
                }),
            )
        }
    } else {
        Ok(FeeSplit { collector: fee, referrer: 0 })
    }
}

/// Parts a fee between the fee collector and the referrer.
pub fn route_fee(
    fee: u64,
    configured: Option<Address>,
    split_bps: u64,
    supplied: Option<Address>,
) -> (r: Result<FeeSplit, ErrorCode>)
    ensures
        r == routing(fee, configured, split_bps, supplied),
{
    if fee == 0 {
        return Ok(FeeSplit { collector: 0, referrer: 0 });
    }
    match (configured, supplied) {
        (Some(expected), Some(given)) => {
            if given != expected {
                return Err(ErrorCode::InvalidReferrer);
            }
            let share = match bps_of(fee, split_bps) {
                Ok(share) => share,
                Err(e) => {
                    return Err(e);
                },
            };
            match fee.checked_sub(share) {
                Some(rest) => Ok(FeeSplit { collector: rest, referrer: share }),
                None => Err(ErrorCode::MathOverflow),
            }
        },
        _ => Ok(FeeSplit { collector: fee, referrer: 0 }),
    }
}

/// Whether a payer holding `balance` of the native asset can pay the flat
/// fee and still keep [`RENT_MINIMUM`]. The sum of the two is capped at the
/// largest 64-bit value.
pub open spec fn affords_flat_fee(balance: u64, flat_fee: u64) -> bool {
    if flat_fee + RENT_MINIMUM > u64::MAX {
        balance == u64::MAX
    } else {
        balance >= flat_fee + RENT_MINIMUM
    }
}

/// Checks that the payer can pay the flat fee and keep [`RENT_MINIMUM`].
pub fn can_pay_flat_fee(balance: u64, flat_fee: u64) -> (r: bool)
    ensures
        r == affords_flat_fee(balance, flat_fee),
{
    balance >= flat_fee.saturating_add(RENT_MINIMUM)
}

/// A deposit is parted without loss: principal and fee add up to it.
pub proof fn lemma_quote_is_exact(gross: u64, fee_bps: u64)
    requires
        quote(gross, fee_bps) is Ok,
    ensures
        ({
            let parts = quote(gross, fee_bps)->Ok_0;
            &&& parts.net + parts.fee == gross
            &&& parts.fee == bps_share(gross as int, fee_bps as int)
        }),
{
}

/// The principal of a deposit is never less than
/// `floor(gross * (10000 - fee_bps) / 10000)`, and is exactly that whenever
/// `gross * fee_bps` is a multiple of 10000. Otherwise the fee was rounded
/// down and the principal is one unit more.
pub proof fn lemma_quote_principal(gross: u64, fee_bps: u64)
    requires
        quote(gross, fee_bps) is Ok,
        fee_bps <= BPS_DENOMINATOR,
    ensures
        ({
            let net = quote(gross, fee_bps)->Ok_0.net;
            let complement = (gross * (BPS_DENOMINATOR - fee_bps)) / (BPS_DENOMINATOR as int);
            &&& (gross * fee_bps) % (BPS_DENOMINATOR as int) == 0 ==> net == complement
            &&& (gross * fee_bps) % (BPS_DENOMINATOR as int) != 0 ==> net == complement + 1
        }),
{
    let g = gross as int;
    let f = fee_bps as int;
    let taken = g * f;
    let kept = g * (10000 - f);
    assert(kept == g * 10000 - taken) by (nonlinear_arith)
        requires
            kept == g * (10000 - f),
            taken == g * f,
    ;
    assert(0 <= taken) by (nonlinear_arith)
        requires
            taken == g * f,
            0 <= g,
            0 <= f,
    ;
    assert(0 <= kept) by (nonlinear_arith)
        requires
            kept == g * (10000 - f),
            0 <= g,
            0 <= f <= 10000,
    ;
    assert(taken == 10000 * (taken / 10000) + taken % 10000);
    assert(kept == 10000 * (kept / 10000) + kept % 10000);
}

/// A fee is routed without loss: the two shares add up to it, and the
/// referrer's is `floor(fee * split_bps / 10000)` whenever there is one.
pub proof fn lemma_routing_is_exact(
    fee: u64,
    configured: Option<Address>,
    split_bps: u64,
    supplied: Option<Address>,
)
    requires
        routing(fee, configured, split_bps, supplied) is Ok,
    ensures
        ({
            let split = routing(fee, configured, split_bps, supplied)->Ok_0;
            let shared = fee > 0 && configured is Some && supplied is Some;
            &&& split.collector + split.referrer == fee
            &&& shared ==> split.referrer == bps_share(fee as int, split_bps as int)
            &&& !shared ==> split.referrer == 0
        }),
{
}

} // verus!

//! Fixed-point arithmetic shared by the reward and the reflection engine.
//!
//! Per-token accumulators are scaled by [`PRECISION`]. Every operation
//! detects overflow and division by zero and reports it; nothing wraps or
//! saturates silently.

use crate::errors::ErrorCode;
use vstd::prelude::*;

verus! {

/// Scale of the per-token accumulators.
pub const PRECISION: u64 = 1_000_000_000;

/// One hundred percent, in basis points.
pub const BPS_DENOMINATOR: u64 = 10_000;

/// Length of the year that annual rates refer to: 365 days.
pub const SECONDS_PER_YEAR: u64 = 31_536_000;

/// `floor(a * b / d)`.
pub open spec fn mul_div_floor(a: int, b: int, d: int) -> int {
    (a * b) / d
}

/// `floor(a * b * c / d)`.
pub open spec fn mul3_div_floor(a: int, b: int, c: int, d: int) -> int {
    (a * b * c) / d
}

/// `floor(amount * bps / 10000)`: the share of `amount` that `bps` basis
/// points stand for.
pub open spec fn bps_share(amount: int, bps: int) -> int {
    (amount * bps) / (BPS_DENOMINATOR as int)
}

/// A product of two 64-bit values fits 128 bits.
pub proof fn lemma_product_fits_u128(a: u64, b: u64)
    ensures
        0 <= a * b <= u128::MAX,
{
    assert(0 <= a * b <= 0xffff_ffff_ffff_ffff * 0xffff_ffff_ffff_ffff) by (nonlinear_arith)
        requires
            0 <= a <= 0xffff_ffff_ffff_ffff,
            0 <= b <= 0xffff_ffff_ffff_ffff,
    ;
}

/// A quotient whose dividend needs more than 128 bits and whose divisor fits
/// 64 bits needs more than 64 bits.
pub proof fn lemma_wide_quotient_overflows(x: int, d: int)
    requires
        x > u128::MAX,
        0 < d <= u64::MAX,
    ensures
        x / d > u64::MAX,
{
    assert(x / d > 0xffff_ffff_ffff_ffff) by (nonlinear_arith)
        requires
            x >= 0x1_0000_0000_0000_0000_0000_0000_0000_0000,
            0 < d <= 0xffff_ffff_ffff_ffff,
    ;
}

/// Computes `floor(a * b / d)` with a 128-bit intermediate product.
///
/// Fails with `DivisionByZero` exactly when `d == 0`, and with `MathOverflow`
/// exactly when the quotient does not fit 64 bits.
pub fn mul_div(a: u64, b: u64, d: u64) -> (r: Result<u64, ErrorCode>)
    ensures
        d == 0 ==> r matches Err(ErrorCode::DivisionByZero),
        d != 0 && mul_div_floor(a as int, b as int, d as int) > u64::MAX ==>
            r matches Err(ErrorCode::MathOverflow),
        d != 0 && mul_div_floor(a as int, b as int, d as int) <= u64::MAX ==> {
            &&& r is Ok
            &&& r->Ok_0 == mul_div_floor(a as int, b as int, d as int)
        },
{
    if d == 0 {
        return Err(ErrorCode::DivisionByZero);
    }
    proof {
        lemma_product_fits_u128(a, b);
    }
    let product: u128 = (a as u128) * (b as u128);
    let quotient: u128 = product / (d as u128);
    if quotient > u64::MAX as u128 {
        return Err(ErrorCode::MathOverflow);
    }
    Ok(quotient as u64)
}

/// Computes `floor(a * b * c / d)` with 128-bit intermediate products.
///
/// Fails with `DivisionByZero` exactly when `d == 0`, and with `MathOverflow`
/// exactly when the quotient does not fit 64 bits. A product that does not
/// fit 128 bits is no separate failure: its quotient by a 64-bit divisor
/// cannot fit 64 bits.
pub fn mul3_div(a: u64, b: u64, c: u64, d: u64) -> (r: Result<u64, ErrorCode>)
    ensures
        d == 0 ==> r matches Err(ErrorCode::DivisionByZero),
        d != 0 && mul3_div_floor(a as int, b as int, c as int, d as int) > u64::MAX ==>
            r matches Err(ErrorCode::MathOverflow),
        d != 0 && mul3_div_floor(a as int, b as int, c as int, d as int) <= u64::MAX ==> {
            &&& r is Ok
            &&& r->Ok_0 == mul3_div_floor(a as int, b as int, c as int, d as int)
        },
{
    if d == 0 {
        return Err(ErrorCode::DivisionByZero);
    }
    proof {
        lemma_product_fits_u128(a, b);
    }
    let ab: u128 = (a as u128) * (b as u128);
    match ab.checked_mul(c as u128) {
        None => {
            proof {
                lemma_wide_quotient_overflows(a * b * c, d as int);
            }
            Err(ErrorCode::MathOverflow)
        },
        Some(product) => {
            let quotient: u128 = product / (d as u128);
            if quotient > u64::MAX as u128 {
                Err(ErrorCode::MathOverflow)
            } else {
                Ok(quotient as u64)
            }
        },
    }
}

/// Computes the share of `amount` that `bps` basis points stand for,
/// `floor(amount * bps / 10000)`, in 64-bit arithmetic.
///
/// Fails with `MathOverflow` exactly when `amount * bps` does not fit 64
/// bits.
pub fn bps_of(amount: u64, bps: u64) -> (r: Result<u64, ErrorCode>)
    ensures
        amount * bps > u64::MAX ==> r matches Err(ErrorCode::MathOverflow),
        amount * bps <= u64::MAX ==> r is Ok && r->Ok_0 == bps_share(amount as int, bps as int),
{
    match amount.checked_mul(bps) {
        None => Err(ErrorCode::MathOverflow),
        Some(product) => Ok(product / BPS_DENOMINATOR),
    }
}

} // verus!

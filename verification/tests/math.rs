use staking::errors::ErrorCode;
use staking::math::{bps_of, mul3_div, mul_div, BPS_DENOMINATOR, PRECISION, SECONDS_PER_YEAR};

#[test]
fn constants_have_their_values() {
    assert_eq!(PRECISION, 1_000_000_000);
    assert_eq!(BPS_DENOMINATOR, 10_000);
    assert_eq!(SECONDS_PER_YEAR, 365 * 24 * 60 * 60);
}

#[test]
fn mul_div_rounds_down() {
    assert_eq!(mul_div(500, 1_000_000_000, 10_000), Ok(50_000_000));
    assert_eq!(mul_div(7, 3, 2), Ok(10));
    assert_eq!(mul_div(1, 1, 2), Ok(0));
    assert_eq!(mul_div(0, u64::MAX, 5), Ok(0));
    assert_eq!(mul_div(10, 10, 1), Ok(100));
}

#[test]
fn mul_div_uses_a_wide_product() {
    // The product needs 128 bits, the quotient fits 64.
    assert_eq!(mul_div(u64::MAX, u64::MAX, u64::MAX), Ok(u64::MAX));
    assert_eq!(mul_div(u64::MAX, 1_000_000_000, 1_000_000_000), Ok(u64::MAX));
    assert_eq!(mul_div(1 << 63, 4, 8), Ok(1 << 62));
}

#[test]
fn mul_div_reports_division_by_zero() {
    assert_eq!(mul_div(1, 1, 0), Err(ErrorCode::DivisionByZero));
    assert_eq!(mul_div(0, 0, 0), Err(ErrorCode::DivisionByZero));
    assert_eq!(mul_div(u64::MAX, u64::MAX, 0), Err(ErrorCode::DivisionByZero));
}

#[test]
fn mul_div_reports_a_quotient_too_large() {
    assert_eq!(mul_div(u64::MAX, 2, 1), Err(ErrorCode::MathOverflow));
    assert_eq!(mul_div(u64::MAX, u64::MAX, u64::MAX - 1), Err(ErrorCode::MathOverflow));
    // The largest quotient that fits is not an overflow.
    assert_eq!(mul_div(u64::MAX, 2, 2), Ok(u64::MAX));
}

#[test]
fn mul3_div_rounds_down() {
    assert_eq!(mul3_div(3, 5, 7, 2), Ok(52));
    assert_eq!(mul3_div(100, 3600, 1_000_000_000, 1_000_000), Ok(360_000_000));
    assert_eq!(mul3_div(0, 5, 7, 2), Ok(0));
    assert_eq!(mul3_div(5, 0, 7, 2), Ok(0));
    assert_eq!(mul3_div(1, 1, 1, 2), Ok(0));
}

#[test]
fn mul3_div_reports_division_by_zero() {
    assert_eq!(mul3_div(1, 2, 3, 0), Err(ErrorCode::DivisionByZero));
}

#[test]
fn mul3_div_reports_overflow_of_quotient_and_of_product() {
    // The quotient does not fit 64 bits.
    assert_eq!(mul3_div(u64::MAX, 2, 1, 1), Err(ErrorCode::MathOverflow));
    // The product does not fit 128 bits.
    assert_eq!(mul3_div(u64::MAX, u64::MAX, 2, u64::MAX), Err(ErrorCode::MathOverflow));
    assert_eq!(mul3_div(u64::MAX, u64::MAX, u64::MAX, u64::MAX), Err(ErrorCode::MathOverflow));
    // A product of 128 bits whose quotient fits.
    assert_eq!(mul3_div(u64::MAX, u64::MAX, 1, u64::MAX), Ok(u64::MAX));
}

#[test]
fn bps_of_is_the_share_in_basis_points() {
    assert_eq!(bps_of(10_000, 100), Ok(100));
    assert_eq!(bps_of(1_000_000, 250), Ok(25_000));
    assert_eq!(bps_of(9_999, 1), Ok(0));
    assert_eq!(bps_of(10_000, 1), Ok(1));
    assert_eq!(bps_of(19_999, 1), Ok(1));
    assert_eq!(bps_of(12_345, 10_000), Ok(12_345));
    assert_eq!(bps_of(0, 500), Ok(0));
    assert_eq!(bps_of(500, 0), Ok(0));
}

#[test]
fn bps_of_forms_the_product_in_64_bits() {
    assert_eq!(bps_of(u64::MAX, 2), Err(ErrorCode::MathOverflow));
    assert_eq!(bps_of(1 << 63, 100), Err(ErrorCode::MathOverflow));
    assert_eq!(bps_of(u64::MAX, 1), Ok(u64::MAX / 10_000));
    assert_eq!(bps_of(u64::MAX / 10_000, 10_000), Ok(u64::MAX / 10_000));
}

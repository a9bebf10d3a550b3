use staking::address::Address;
use staking::errors::ErrorCode;
use staking::fees::{
    can_pay_flat_fee, quote_deposit, route_fee, DepositQuote, FeeSplit, RENT_MINIMUM,
};

fn who(n: u8) -> Address {
    Address { bytes: [n; 32] }
}

#[test]
fn quote_parts_a_deposit_into_principal_and_fee() {
    assert_eq!(quote_deposit(1_000_000, 250), Ok(DepositQuote { net: 975_000, fee: 25_000 }));
    assert_eq!(quote_deposit(10_000, 1), Ok(DepositQuote { net: 9_999, fee: 1 }));
    assert_eq!(quote_deposit(1_000, 0), Ok(DepositQuote { net: 1_000, fee: 0 }));
    assert_eq!(quote_deposit(1_000, 10_000), Ok(DepositQuote { net: 0, fee: 1_000 }));
}

#[test]
fn quote_rounds_the_fee_down() {
    // 1% of 150 is 1.5: the fee is 1 and the principal 149.
    assert_eq!(quote_deposit(150, 100), Ok(DepositQuote { net: 149, fee: 1 }));
    // 1% of 1 is nothing.
    assert_eq!(quote_deposit(1, 100), Ok(DepositQuote { net: 1, fee: 0 }));
    assert_eq!(quote_deposit(99, 100), Ok(DepositQuote { net: 99, fee: 0 }));
    assert_eq!(quote_deposit(100, 100), Ok(DepositQuote { net: 99, fee: 1 }));
}

#[test]
fn quote_principal_is_the_complement_share_when_nothing_is_rounded() {
    for (gross, bps) in [(1_000_000u64, 250u64), (20_000, 5), (10_000, 9_999), (400, 2_500)] {
        assert_eq!(gross * bps % 10_000, 0);
        let quote = quote_deposit(gross, bps).unwrap();
        assert_eq!(quote.net, gross * (10_000 - bps) / 10_000);
        assert_eq!(quote.net + quote.fee, gross);
    }
}

#[test]
fn quote_principal_is_one_more_than_the_complement_share_when_rounded() {
    for (gross, bps) in [(150u64, 100u64), (1, 100), (33, 3_333), (9_999, 1)] {
        assert_ne!(gross * bps % 10_000, 0);
        let quote = quote_deposit(gross, bps).unwrap();
        assert_eq!(quote.net, gross * (10_000 - bps) / 10_000 + 1);
        assert_eq!(quote.net + quote.fee, gross);
    }
}

#[test]
fn quote_rejects_a_fee_above_the_deposit() {
    assert_eq!(quote_deposit(1_000, 10_010), Err(ErrorCode::MathOverflow));
    assert_eq!(quote_deposit(10, 20_000), Err(ErrorCode::MathOverflow));
    // A fee that rounds down to the whole deposit is none above it.
    assert_eq!(quote_deposit(1_000, 10_001), Ok(DepositQuote { net: 0, fee: 1_000 }));
}

#[test]
fn quote_rejects_a_product_beyond_64_bits() {
    assert_eq!(quote_deposit(u64::MAX, 2), Err(ErrorCode::MathOverflow));
    assert_eq!(quote_deposit(u64::MAX, 1), Ok(DepositQuote {
        net: u64::MAX - u64::MAX / 10_000,
        fee: u64::MAX / 10_000,
    }));
}

#[test]
fn fee_goes_to_the_collector_without_a_referrer() {
    assert_eq!(route_fee(500, None, 3_000, None), Ok(FeeSplit { collector: 500, referrer: 0 }));
    // Configured but not supplied.
    assert_eq!(
        route_fee(500, Some(who(9)), 3_000, None),
        Ok(FeeSplit { collector: 500, referrer: 0 })
    );
    // Supplied but not configured.
    assert_eq!(
        route_fee(500, None, 3_000, Some(who(9))),
        Ok(FeeSplit { collector: 500, referrer: 0 })
    );
}

#[test]
fn fee_is_split_with_the_referrer() {
    assert_eq!(
        route_fee(1_000, Some(who(9)), 3_000, Some(who(9))),
        Ok(FeeSplit { collector: 700, referrer: 300 })
    );
    assert_eq!(
        route_fee(1_000, Some(who(9)), 10_000, Some(who(9))),
        Ok(FeeSplit { collector: 0, referrer: 1_000 })
    );
    assert_eq!(
        route_fee(1_000, Some(who(9)), 0, Some(who(9))),
        Ok(FeeSplit { collector: 1_000, referrer: 0 })
    );
}

#[test]
fn what_rounding_leaves_over_stays_with_the_collector() {
    // A third of 100 is 33.33: the referrer has 33, the collector 67.
    assert_eq!(
        route_fee(100, Some(who(9)), 3_333, Some(who(9))),
        Ok(FeeSplit { collector: 67, referrer: 33 })
    );
    assert_eq!(
        route_fee(1, Some(who(9)), 9_999, Some(who(9))),
        Ok(FeeSplit { collector: 1, referrer: 0 })
    );
    for fee in [1u64, 7, 99, 100, 12_345] {
        for bps in [0u64, 1, 3_333, 5_000, 9_999, 10_000] {
            let split = route_fee(fee, Some(who(9)), bps, Some(who(9))).unwrap();
            assert_eq!(split.referrer, fee * bps / 10_000);
            assert_eq!(split.collector + split.referrer, fee);
        }
    }
}

#[test]
fn a_wrong_referrer_is_rejected() {
    assert_eq!(
        route_fee(1_000, Some(who(9)), 3_000, Some(who(8))),
        Err(ErrorCode::InvalidReferrer)
    );
}

#[test]
fn no_fee_is_routed_nowhere_and_checks_nothing() {
    assert_eq!(
        route_fee(0, Some(who(9)), 3_000, Some(who(8))),
        Ok(FeeSplit { collector: 0, referrer: 0 })
    );
    assert_eq!(route_fee(0, None, 20_000, None), Ok(FeeSplit { collector: 0, referrer: 0 }));
}

#[test]
fn a_share_above_the_fee_is_an_overflow() {
    assert_eq!(
        route_fee(1_000, Some(who(9)), 10_010, Some(who(9))),
        Err(ErrorCode::MathOverflow)
    );
    assert_eq!(
        route_fee(u64::MAX, Some(who(9)), 2, Some(who(9))),
        Err(ErrorCode::MathOverflow)
    );
}

#[test]
fn flat_fee_needs_rent_on_top() {
    assert_eq!(RENT_MINIMUM, 890_880);
    assert!(can_pay_flat_fee(890_880, 0));
    assert!(!can_pay_flat_fee(890_879, 0));
    assert!(can_pay_flat_fee(1_000_000 + 890_880, 1_000_000));
    assert!(!can_pay_flat_fee(1_000_000 + 890_879, 1_000_000));
    // The sum is capped at the largest value.
    assert!(can_pay_flat_fee(u64::MAX, u64::MAX));
    assert!(!can_pay_flat_fee(u64::MAX - 1, u64::MAX));
}

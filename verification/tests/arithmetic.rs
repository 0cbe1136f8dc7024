use fair_lp_oracle::decimal::{mul_floor, Decimal, DECIMAL_FRACTIONAL};
use fair_lp_oracle::wide::{isqrt, mul_wide, wide_div, wide_le, U256};
use fair_lp_oracle::OracleError;

const ONE: u128 = DECIMAL_FRACTIONAL;

#[test]
fn wide_product_carries_into_the_high_limb() {
    let p = mul_wide(1 << 127, 4);
    assert_eq!(p, U256 { hi: 2, lo: 0 });
    let p = mul_wide(u128::MAX, u128::MAX);
    // (2^128 - 1)^2 = (2^128 - 2) * 2^128 + 1
    assert_eq!(p, U256 { hi: u128::MAX - 1, lo: 1 });
    assert_eq!(mul_wide(12345, 6789), U256 { hi: 0, lo: 12345 * 6789 });
}

#[test]
fn wide_comparison_orders_by_value() {
    let small = U256 { hi: 0, lo: u128::MAX };
    let big = U256 { hi: 1, lo: 0 };
    assert!(wide_le(small, big));
    assert!(!wide_le(big, small));
    assert!(wide_le(big, big));
}

#[test]
fn integer_sqrt_rounds_down() {
    assert_eq!(isqrt(U256 { hi: 0, lo: 144 }), 12);
    assert_eq!(isqrt(U256 { hi: 0, lo: 145 }), 12);
    assert_eq!(isqrt(U256 { hi: 0, lo: 168 }), 12);
    assert_eq!(isqrt(U256 { hi: 0, lo: 169 }), 13);
    assert_eq!(isqrt(U256 { hi: 0, lo: 0 }), 0);
    // sqrt(2^128) = 2^64
    assert_eq!(isqrt(U256 { hi: 1, lo: 0 }), 1 << 64);
    // The root of the largest square saturates the 128-bit range.
    assert_eq!(isqrt(mul_wide(u128::MAX, u128::MAX)), u128::MAX);
}

#[test]
fn wide_division_is_exact_floor() {
    assert_eq!(wide_div(mul_wide(7, 3), 2), Some(10));
    assert_eq!(wide_div(U256 { hi: 0, lo: 0 }, 5), Some(0));
    // 2^128 * 3 / 3 = 2^128 does not fit.
    assert_eq!(wide_div(U256 { hi: 3, lo: 0 }, 3), None);
    // ... but one atom less does.
    assert_eq!(wide_div(U256 { hi: 2, lo: u128::MAX }, 3), Some(u128::MAX));
}

#[test]
fn ratio_rounds_down_to_atomics() {
    let third = Decimal::from_ratio(1, 3).unwrap();
    assert_eq!(third.atomics, 333_333_333_333_333_333);
    assert_eq!(Decimal::from_ratio(400, 100).unwrap(), Decimal { atomics: 4 * ONE });
    assert_eq!(Decimal::from_ratio(0, 7).unwrap(), Decimal { atomics: 0 });
}

#[test]
fn ratio_fails_on_zero_denominator() {
    assert_eq!(Decimal::from_ratio(1, 0), Err(OracleError::DivideByZero));
    assert_eq!(Decimal::from_ratio(0, 0), Err(OracleError::DivideByZero));
}

#[test]
fn ratio_fails_when_atomics_leave_range() {
    assert_eq!(Decimal::from_ratio(u128::MAX, 1), Err(OracleError::Overflow));
}

#[test]
fn amount_times_price_rounds_down() {
    assert_eq!(mul_floor(100, Decimal { atomics: 2 * ONE }), Ok(200));
    // 1 * 0.5 rounds down to zero whole units.
    assert_eq!(mul_floor(1, Decimal { atomics: ONE / 2 }), Ok(0));
    assert_eq!(mul_floor(3, Decimal { atomics: ONE / 2 }), Ok(1));
    assert_eq!(mul_floor(0, Decimal { atomics: u128::MAX }), Ok(0));
}

#[test]
fn amount_times_price_fails_when_out_of_range() {
    assert_eq!(
        mul_floor(u128::MAX, Decimal { atomics: 2 * ONE }),
        Err(OracleError::Overflow)
    );
    // The identity price keeps any amount in range.
    assert_eq!(mul_floor(u128::MAX, Decimal { atomics: ONE }), Ok(u128::MAX));
}

//! Fixed-point decimal values with 18 fractional digits, the unit in which
//! every price of the oracle is expressed ("units of base currency per one
//! unit of asset"). A value is stored as its count of atomic units, so one
//! whole unit is `10^18` atomics.

use vstd::prelude::*;
use crate::wide::{mul_wide, wide_div};
use crate::OracleError;

verus! {

/// Atomic units per whole unit: `10^18`.
pub const DECIMAL_FRACTIONAL: u128 = 1_000_000_000_000_000_000;

/// A non-negative fixed-point number with 18 fractional decimal digits,
/// stored as `atomics / 10^18`.
#[derive(Clone, Copy, Debug, PartialEq, Eq, Structural, Default)]
pub struct Decimal {
    pub atomics: u128,
}

impl Decimal {
    /// The value `1.0`.
    pub fn one() -> (r: Decimal)
        ensures
            r.atomics == DECIMAL_FRACTIONAL,
    {
        Decimal { atomics: DECIMAL_FRACTIONAL }
    }

    /// The ratio `numerator / denominator` rounded down to the nearest
    /// atomic unit. Fails on a zero denominator, and when the ratio is too
    /// large for the 128-bit atomic count.
    pub fn from_ratio(numerator: u128, denominator: u128) -> (r: Result<Decimal, OracleError>)
        ensures
            match r {
                Ok(d) => denominator != 0
                    && d.atomics as int == ratio_atomics(numerator as int, denominator as int)
                    && ratio_atomics(numerator as int, denominator as int) <= u128::MAX,
                Err(OracleError::DivideByZero) => denominator == 0,
                Err(OracleError::Overflow) => denominator != 0
                    && ratio_atomics(numerator as int, denominator as int) > u128::MAX,
                Err(_) => false,
            },
    {
        if denominator == 0 {
            Err(OracleError::DivideByZero)
        } else {
            let scaled = mul_wide(numerator, DECIMAL_FRACTIONAL);
            match wide_div(scaled, denominator) {
                Some(atomics) => Ok(Decimal { atomics }),
                None => Err(OracleError::Overflow),
            }
        }
    }
}

/// Atomics of the ratio `n / d`: `floor(n * 10^18 / d)`.
pub open spec fn ratio_atomics(n: int, d: int) -> int {
    (n * 1_000_000_000_000_000_000) / d
}

/// `floor(amount * value)` for an asset amount and a decimal price: the
/// product of the amount with the price's atomics, scaled back down by
/// `10^18`.
pub open spec fn scaled_value(amount: int, atomics: int) -> int {
    (amount * atomics) / 1_000_000_000_000_000_000
}

/// An asset amount times a decimal price, rounded down to a whole integer.
/// Fails only when the result exceeds the 128-bit range.
pub fn mul_floor(amount: u128, price: Decimal) -> (r: Result<u128, OracleError>)
    ensures
        match r {
            Ok(v) => v as int == scaled_value(amount as int, price.atomics as int)
                && scaled_value(amount as int, price.atomics as int) <= u128::MAX,
            Err(OracleError::Overflow) =>
                scaled_value(amount as int, price.atomics as int) > u128::MAX,
            Err(_) => false,
        },
{
    let product = mul_wide(amount, price.atomics);
    match wide_div(product, DECIMAL_FRACTIONAL) {
        Some(v) => Ok(v),
        None => Err(OracleError::Overflow),
    }
}

} // verus!

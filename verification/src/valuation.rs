//! The fair-value formula for a two-asset constant-product pool, and the
//! per-share rate built on it. The pool value is `2 * sqrt(value_a *
//! value_b)` with `value_x = reserve_x * price_x`: at equilibrium it equals
//! the reserves valued at market prices, and at fixed external prices it
//! depends on the reserves only through their product — which is exactly
//! what a one-sided flash deposit or withdrawal preserves.

use vstd::prelude::*;
use crate::decimal::{ratio_atomics, scaled_value, Decimal};
use crate::pool::PoolSnapshot;
use crate::proxy::ProxyPriceResponse;
use crate::wide::{isqrt, mul_wide, sqrt_floor};
use crate::OracleError;

verus! {

/// The fair pool value for reserves `ra`, `rb` and per-asset prices with
/// atomics `pa`, `pb`: twice the integer square root of the product of the
/// two scaled reserve values.
pub open spec fn fair_pool_value(ra: int, pa: int, rb: int, pb: int) -> int {
    2 * sqrt_floor(scaled_value(ra, pa) * scaled_value(rb, pb))
}

/// When the valuation leaves the 128-bit range: either scaled reserve value,
/// or the doubled square root.
pub open spec fn value_exceeds_range(ra: int, pa: int, rb: int, pb: int) -> bool {
    ||| scaled_value(ra, pa) > u128::MAX
    ||| scaled_value(rb, pb) > u128::MAX
    ||| fair_pool_value(ra, pa, rb, pb) > u128::MAX
}

/// The per-share rate in atomics: the fair pool value divided by the share
/// supply, as an 18-digit fixed-point number rounded down.
pub open spec fn lp_rate_atomics(ra: int, pa: int, rb: int, pb: int, shares: int) -> int {
    ratio_atomics(fair_pool_value(ra, pa, rb, pb), shares)
}

/// The fair pool value of two reserves at two prices. Fails exactly when an
/// intermediate quantity leaves the 128-bit range; the wide products
/// themselves cannot overflow.
pub fn compute_fair_value(
    reserve_a: u128,
    price_a: Decimal,
    reserve_b: u128,
    price_b: Decimal,
) -> (r: Result<u128, OracleError>)
    ensures
        match r {
            Ok(v) => !value_exceeds_range(
                reserve_a as int, price_a.atomics as int,
                reserve_b as int, price_b.atomics as int,
            ) && v as int == fair_pool_value(
                reserve_a as int, price_a.atomics as int,
                reserve_b as int, price_b.atomics as int,
            ),
            Err(OracleError::Overflow) => value_exceeds_range(
                reserve_a as int, price_a.atomics as int,
                reserve_b as int, price_b.atomics as int,
            ),
            Err(_) => false,
        },
{
    let value_a = match crate::decimal::mul_floor(reserve_a, price_a) {
        Ok(v) => v,
        Err(e) => {
            return Err(e);
        },
    };
    let value_b = match crate::decimal::mul_floor(reserve_b, price_b) {
        Ok(v) => v,
        Err(e) => {
            return Err(e);
        },
    };
    let root = isqrt(mul_wide(value_a, value_b));
    if root <= (u128::MAX - 1) / 2 {
        Ok(2 * root)
    } else {
        Err(OracleError::Overflow)
    }
}

/// The proxy response for a validated pool and its two resolved prices: the
/// fair pool value divided by the share supply, stamped with the caller's
/// clock. An empty pool (no outstanding shares) fails rather than divide.
pub fn compute_lp_rate(
    pool: &PoolSnapshot,
    price_a: Decimal,
    price_b: Decimal,
    now: u64,
) -> (r: Result<ProxyPriceResponse, OracleError>)
    ensures
        ({
            let ra = pool.reserve_a as int;
            let pa = price_a.atomics as int;
            let rb = pool.reserve_b as int;
            let pb = price_b.atomics as int;
            let shares = pool.total_shares as int;
            match r {
                Ok(resp) => !value_exceeds_range(ra, pa, rb, pb)
                    && shares != 0
                    && lp_rate_atomics(ra, pa, rb, pb, shares) <= u128::MAX
                    && resp.rate.atomics as int == lp_rate_atomics(ra, pa, rb, pb, shares)
                    && resp.last_updated == now,
                Err(OracleError::DivideByZero) => !value_exceeds_range(ra, pa, rb, pb)
                    && shares == 0,
                Err(OracleError::Overflow) => value_exceeds_range(ra, pa, rb, pb)
                    || (shares != 0
                        && lp_rate_atomics(ra, pa, rb, pb, shares) > u128::MAX),
                Err(_) => false,
            }
        }),
{
    let pool_value = match compute_fair_value(
        pool.reserve_a, price_a, pool.reserve_b, price_b,
    ) {
        Ok(v) => v,
        Err(e) => {
            return Err(e);
        },
    };
    let rate = match Decimal::from_ratio(pool_value, pool.total_shares) {
        Ok(d) => d,
        Err(e) => {
            return Err(e);
        },
    };
    Ok(ProxyPriceResponse { rate, last_updated: now })
}

/// The formula is symmetric in its two assets: which asset is labeled
/// primary and which secondary cannot change the pool value, whether it
/// exceeds the representable range, or the per-share rate.
pub proof fn lemma_fair_value_symmetric(ra: int, pa: int, rb: int, pb: int)
    ensures
        fair_pool_value(ra, pa, rb, pb) == fair_pool_value(rb, pb, ra, pa),
        value_exceeds_range(ra, pa, rb, pb) == value_exceeds_range(rb, pb, ra, pa),
{
    assert(scaled_value(ra, pa) * scaled_value(rb, pb)
        == scaled_value(rb, pb) * scaled_value(ra, pa)) by (nonlinear_arith);
}

/// Symmetry lifted to the per-share rate.
pub proof fn lemma_lp_rate_symmetric(ra: int, pa: int, rb: int, pb: int, shares: int)
    ensures
        lp_rate_atomics(ra, pa, rb, pb, shares) == lp_rate_atomics(rb, pb, ra, pa, shares),
{
    lemma_fair_value_symmetric(ra, pa, rb, pb);
}

/// Manipulation insensitivity: at fixed prices, the geometric-mean pool
/// value over the exact reserve-times-price products depends on the
/// reserves only through their product `ra * rb` — the very quantity a
/// one-sided reserve shift at fixed invariant preserves. (The implementation
/// additionally rounds each product down to whole units, which perturbs the
/// result by at most that rounding.)
pub proof fn lemma_manipulation_insensitive(
    ra: int, pa: int, rb: int, pb: int, ra2: int, rb2: int,
)
    requires
        ra * rb == ra2 * rb2,
    ensures
        2 * sqrt_floor((ra * pa) * (rb * pb)) == 2 * sqrt_floor((ra2 * pa) * (rb2 * pb)),
{
    assert((ra * pa) * (rb * pb) == (ra2 * pa) * (rb2 * pb)) by (nonlinear_arith)
        requires
            ra * rb == ra2 * rb2;
}

} // verus!

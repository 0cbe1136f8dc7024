//! Fair valuation of liquidity-pool share tokens.
//!
//! The library derives the value of an LP share token from the product of the
//! pool's reserves and independently sourced per-asset prices, combined with a
//! geometric-mean formula over overflow-safe 256-bit arithmetic. Reading the
//! chain (pool state, exchange rates, hub quotes, configuration storage) is
//! left to the surrounding contract glue; every decision and every piece of
//! arithmetic lives here, with a proved contract.

use vstd::prelude::*;

pub mod asset;
pub mod decimal;
pub mod msg;
pub mod pool;
pub mod price;
pub mod proxy;
pub mod state;
pub mod valuation;
pub mod wide;

verus! {

/// Failures surfaced to the caller of a price query. A price oracle never
/// recovers locally: each error aborts the whole query.
#[derive(Clone, Copy, Debug, PartialEq, Eq, Structural)]
pub enum OracleError {
    /// An upstream query failed or returned an unusable shape.
    ExternalQuery,
    /// The pool response was malformed or missed an expected asset.
    PoolData,
    /// A per-share rate was requested for a pool with no outstanding shares.
    DivideByZero,
    /// An intermediate quantity exceeded the 128-bit range.
    Overflow,
}

} // verus!

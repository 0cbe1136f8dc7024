//! The query surface shared by price-proxy contracts: the request shape a
//! hub sends a proxy, and the response shape a proxy answers with.

use vstd::prelude::*;
use crate::decimal::Decimal;

verus! {

/// A query addressed to a price proxy.
#[derive(Clone, Debug, PartialEq)]
pub enum ProxyQueryMsg {
    Price { asset_token: String },
}

/// A proxy's answer: the rate denominated in the base unit of account, and
/// the time the underlying observation was made, in seconds.
#[derive(Clone, Copy, Debug, PartialEq, Eq, Structural, Default)]
pub struct ProxyPriceResponse {
    pub rate: Decimal,
    pub last_updated: u64,
}

/// A diagnostic answer that also carries the inputs the rate was derived
/// from: both per-asset prices, both reserves, and the share supply.
#[derive(Clone, Copy, Debug, PartialEq, Eq, Structural, Default)]
pub struct TempProxyPriceResponse {
    pub rate: Decimal,
    pub p1: Decimal,
    pub p2: Decimal,
    pub r1: u128,
    pub r2: u128,
    pub total_shares: u128,
    pub last_updated: u64,
}

/// The wrapper a hub uses to address the proxy-standard queries.
#[derive(Clone, Debug, PartialEq)]
pub enum ProxyBaseQuery {
    Base(ProxyQueryMsg),
}

} // verus!

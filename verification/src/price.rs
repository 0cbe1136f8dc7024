//! Per-asset reference prices. Resolving a price may take an external query
//! — a native exchange-rate lookup or a call to the price hub — so the
//! resolution is split into a decision (which query, if any, to issue) and
//! the reading of each query's answer. The caller performs the query itself
//! and feeds the raw answer back; everything decided here is verified.

use vstd::prelude::*;
use vstd::string::StringExecFns;
use crate::decimal::{Decimal, DECIMAL_FRACTIONAL};
use crate::asset::AssetInfo;
use crate::state::Config;
use crate::OracleError;

verus! {

/// A resolved price: units of base currency per one unit of the asset, and
/// the time of the underlying observation.
#[derive(Clone, Copy, Debug, PartialEq, Eq, Structural)]
pub struct PriceQuote {
    pub rate: Decimal,
    pub observed_at: u64,
}

/// Where an asset's price comes from: nowhere (the base denomination itself),
/// the chain's native exchange-rate service, or the configured price hub.
#[derive(Clone, Debug, PartialEq)]
pub enum PriceSource {
    Base,
    NativeExchangeRate { denom: String },
    Hub { hub_addr: String, token_addr: String },
}

/// The chain's base unit of account, in which every price is denominated.
pub open spec fn is_base_denom(d: Seq<char>) -> bool {
    d == "uusd"@
}

/// Which source prices `asset`, given the configured hub address `hub`: the
/// base denomination needs no query at all; any other native denomination is
/// priced by the exchange-rate service; a token is priced by the hub.
pub open spec fn source_ok(asset: AssetInfo, hub: Seq<char>, s: PriceSource) -> bool {
    match asset {
        AssetInfo::Native(d) => if is_base_denom(d@) {
            s matches PriceSource::Base
        } else {
            s matches PriceSource::NativeExchangeRate { denom } && denom@ == d@
        },
        AssetInfo::Cw20(a) => s matches PriceSource::Hub { hub_addr, token_addr }
            && hub_addr@ == hub && token_addr@ == a@,
    }
}

/// The price source for an asset. The base denomination short-circuits: its
/// source carries no address, so no external call can follow from it, for
/// any configuration.
pub fn price_source_for(asset: &AssetInfo, config: &Config) -> (s: PriceSource)
    ensures
        source_ok(*asset, config.prism_oracle_addr@, s),
{
    match asset {
        AssetInfo::Native(denom) => {
            let base: String = String::from_str("uusd");
            if String::eq(denom, &base) {
                PriceSource::Base
            } else {
                PriceSource::NativeExchangeRate { denom: denom.clone() }
            }
        },
        AssetInfo::Cw20(addr) => PriceSource::Hub {
            hub_addr: config.prism_oracle_addr.clone(),
            token_addr: addr.clone(),
        },
    }
}

/// The quote for the base denomination: definitionally `1.0`, observed-at
/// set to the sentinel used when no upstream source supplies a timestamp.
pub fn quote_for_base() -> (q: PriceQuote)
    ensures
        q.rate.atomics == DECIMAL_FRACTIONAL,
        q.observed_at == u64::MAX,
{
    PriceQuote { rate: Decimal::one(), observed_at: u64::MAX }
}

/// The quote read out of a native exchange-rate answer: the first listed
/// rate, with the sentinel timestamp (the exchange-rate service reports
/// none). An empty rate list is a failed query, never an out-of-bounds read.
pub fn quote_from_native_rates(rates: &Vec<Decimal>) -> (r: Result<PriceQuote, OracleError>)
    ensures
        match r {
            Ok(q) => rates@.len() > 0 && q.rate == rates@[0] && q.observed_at == u64::MAX,
            Err(e) => e == OracleError::ExternalQuery && rates@.len() == 0,
        },
{
    if rates.len() == 0 {
        Err(OracleError::ExternalQuery)
    } else {
        Ok(PriceQuote { rate: rates[0], observed_at: u64::MAX })
    }
}

/// The quote read out of a hub answer: the hub's reported rate and
/// timestamp, unchanged.
pub fn quote_from_hub(rate: Decimal, last_updated: u64) -> (q: PriceQuote)
    ensures
        q.rate == rate,
        q.observed_at == last_updated,
{
    PriceQuote { rate, observed_at: last_updated }
}

} // verus!

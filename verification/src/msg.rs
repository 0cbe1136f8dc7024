//! The contract's own request and response shapes: initialization input,
//! the query surface, and the configuration read-back.

use vstd::prelude::*;
use crate::proxy::ProxyQueryMsg;

verus! {

/// Initialization input: the address of the price-hub service to query for
/// token prices.
#[derive(Clone, Debug, PartialEq)]
pub struct InstantiateMsg {
    pub prism_oracle_addr: String,
}

/// A query addressed to this contract: its own configuration read, or one of
/// the proxy-standard queries.
#[derive(Clone, Debug, PartialEq)]
pub enum QueryMsg {
    Config {},
    Base(ProxyQueryMsg),
}

/// The configuration as reported back to a caller.
#[derive(Clone, Debug, PartialEq)]
pub struct ConfigResponse {
    pub prism_oracle_addr: String,
}

/// What a query asks for: the configuration read back, or an LP token
/// priced.
#[derive(Clone, Debug, PartialEq)]
pub enum QueryPlan {
    ReadConfig,
    PriceLpToken { asset_token: String },
}

/// The dispatch decision for an incoming query.
pub fn plan_query(msg: QueryMsg) -> (p: QueryPlan)
    ensures
        match msg {
            QueryMsg::Config {} => p matches QueryPlan::ReadConfig,
            QueryMsg::Base(ProxyQueryMsg::Price { asset_token }) => (p matches
                QueryPlan::PriceLpToken { asset_token: t } && t@ == asset_token@),
        },
{
    match msg {
        QueryMsg::Config {} => QueryPlan::ReadConfig,
        QueryMsg::Base(ProxyQueryMsg::Price { asset_token }) => {
            QueryPlan::PriceLpToken { asset_token }
        },
    }
}

} // verus!

//! The contract's persistent configuration: the address of the price-hub
//! service. It is written once at initialization and read on every token
//! price query; the storage itself is the host's, so the library only
//! builds and reads back the value.

use vstd::prelude::*;
use crate::msg::ConfigResponse;

verus! {

/// The persisted configuration.
#[derive(Clone, Debug, PartialEq)]
pub struct Config {
    pub prism_oracle_addr: String,
}

impl Config {
    /// The configuration holding a validated price-hub address.
    pub fn new(prism_oracle_addr: String) -> (c: Config)
        ensures
            c.prism_oracle_addr@ == prism_oracle_addr@,
    {
        Config { prism_oracle_addr }
    }

    /// The configuration as a response, address unchanged.
    pub fn as_res(&self) -> (r: ConfigResponse)
        ensures
            r.prism_oracle_addr@ == self.prism_oracle_addr@,
    {
        ConfigResponse { prism_oracle_addr: self.prism_oracle_addr.clone() }
    }
}

/// Reading the configuration back yields exactly the address it was created
/// with: the postconditions of [`Config::new`] and [`Config::as_res`] compose
/// to the identity on the address.
pub proof fn lemma_config_round_trip(c: Config, r: ConfigResponse, addr: Seq<char>)
    requires
        c.prism_oracle_addr@ == addr,
        r.prism_oracle_addr@ == c.prism_oracle_addr@,
    ensures
        r.prism_oracle_addr@ == addr,
{
}

} // verus!

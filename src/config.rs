//! The per-service settings the reconciler works from.
use vstd::prelude::*;

use crate::address::Address;

verus! {

/// One service whose AAAA record is kept up to date.
#[derive(Clone, Debug)]
pub struct ServiceConfig {
    /// Only the last four segments (the interface identifier) are used.
    pub suffix: Address,
    /// Record name within the domain.
    pub name: String,
    /// Domain that holds the record.
    pub fqdn: String,
    /// Time to live written with the record.
    pub ttl: u32,
}

/// The settings of one run: where the host's address is looked up, the
/// services to reconcile (keyed by a label), and the provider's API key.
#[derive(Clone, Debug)]
pub struct Config {
    pub query_server: String,
    pub services: Vec<(String, ServiceConfig)>,
    pub token: String,
}

impl Config {
    /// Each service label names one service: no two entries share a label.
    pub open spec fn wf(&self) -> bool {
        forall|i: int, j: int|
            0 <= i < self.services@.len() && 0 <= j < self.services@.len() && i != j
                ==> #[trigger] self.services@[i].0@ != #[trigger] self.services@[j].0@
    }
}

/// The address lookup service used when none is configured.
pub fn default_query_server() -> (r: String)
    ensures
        r@ == "https://ifconfig.co"@,
{
    "https://ifconfig.co".to_owned()
}

} // verus!

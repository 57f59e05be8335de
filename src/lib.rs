//! Keeps the AAAA record of each configured service pointed at an address
//! built from the host's current IPv6 prefix and the service's fixed suffix.
use vstd::prelude::*;

pub mod address;
pub mod config;
pub mod reconcile;

verus! {

} // verus!

//! Network configuration shapes for sandboxes. Creating, deleting and
//! listing host networks is the surrounding binary's business; the core only
//! carries the configuration values.

use vstd::prelude::*;

use crate::strutil;

verus! {

/// NAT network configuration for sandboxes.
#[derive(Debug, Clone)]
pub struct NetworkConfig {
    pub nat_enabled: bool,
    pub subnet: String,
    pub gateway: String,
}

impl Default for NetworkConfig {
    /// The stock NAT network.
    fn default() -> (r: Self)
        ensures
            r.nat_enabled,
            r.subnet@ == "172.28.0.0/16"@,
            r.gateway@ == "172.28.0.1"@,
    {
        NetworkConfig {
            nat_enabled: true,
            subnet: strutil::s("172.28.0.0/16"),
            gateway: strutil::s("172.28.0.1"),
        }
    }
}

/// One host network as enumerated by the host.
#[derive(Debug, Clone)]
pub struct NetworkInfo {
    pub name: String,
    pub id: Option<String>,
    pub network_type: Option<String>,
}

} // verus!

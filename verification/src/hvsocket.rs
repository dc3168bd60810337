//! Host-guest socket addressing. The sockets themselves are host-specific
//! I/O and live in the surrounding binary; the core only computes addresses.

use vstd::prelude::*;

use crate::strutil;

pub mod service_ids;

verus! {

/// An address for connecting to a service inside a VM.
#[derive(Debug, Clone)]
pub struct HvSocketAddr {
    /// VM GUID, as the compute service reports it.
    pub vm_id: String,
    /// Service GUID.
    pub service_id: String,
}

impl HvSocketAddr {
    /// An address from a VM GUID and a service GUID.
    pub fn new(vm_id: String, service_id: String) -> (r: Self)
        ensures
            r.vm_id == vm_id,
            r.service_id == service_id,
    {
        HvSocketAddr { vm_id, service_id }
    }

    /// The address of the in-guest agent service on the given VM.
    pub fn agent(vm_id: String) -> (r: Self)
        ensures
            r.vm_id == vm_id,
            r.service_id@ == service_ids::AGENT@,
    {
        HvSocketAddr::new(vm_id, strutil::s(service_ids::AGENT))
    }
}

} // verus!

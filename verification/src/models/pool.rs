//! VM pool model.

use vstd::prelude::*;

use crate::strutil;
use crate::trusted;

verus! {

/// The mathematical value of a [`VMPool`] row.
pub struct PoolModel {
    pub id: Seq<char>,
    pub name: Seq<char>,
    pub template_id: Seq<char>,
    pub desired_count: usize,
    pub warm_count: usize,
    pub max_per_host: usize,
    pub created_at: i64,
}

/// A pool of VMs cloned from the same template.
#[derive(Debug)]
pub struct VMPool {
    /// Unique identifier.
    pub id: String,
    /// Human-readable name.
    pub name: String,
    /// Template to create VMs from.
    pub template_id: String,
    /// Desired number of VMs in the pool.
    pub desired_count: usize,
    /// Number of VMs to keep in saved state.
    pub warm_count: usize,
    /// Maximum VMs per host.
    pub max_per_host: usize,
    /// Creation time, milliseconds since the Unix epoch.
    pub created_at: i64,
}

impl View for VMPool {
    type V = PoolModel;

    open spec fn view(&self) -> PoolModel {
        PoolModel {
            id: self.id@,
            name: self.name@,
            template_id: self.template_id@,
            desired_count: self.desired_count,
            warm_count: self.warm_count,
            max_per_host: self.max_per_host,
            created_at: self.created_at,
        }
    }
}

impl DeepView for VMPool {
    type V = PoolModel;

    open spec fn deep_view(&self) -> PoolModel {
        self.view()
    }
}

impl Clone for VMPool {
    /// A copy with the same mathematical value.
    fn clone(&self) -> (r: Self)
        ensures
            r@ == self@,
    {
        VMPool {
            id: strutil::s_clone(&self.id),
            name: strutil::s_clone(&self.name),
            template_id: strutil::s_clone(&self.template_id),
            desired_count: self.desired_count,
            warm_count: self.warm_count,
            max_per_host: self.max_per_host,
            created_at: self.created_at,
        }
    }
}

impl VMPool {
    /// A fresh pool with the default sizing and a newly minted `pool-` id.
    pub fn new(name: String, template_id: String) -> (r: Self)
        ensures
            r@.id.len() == 41,
            r@.id.subrange(0, 5) == "pool-"@,
            r@.name == name@,
            r@.template_id == template_id@,
            r@.desired_count == 3,
            r@.warm_count == 1,
            r@.max_per_host == 10,
    {
        proof {
            reveal_strlit("pool-");
        }
        VMPool {
            id: trusted::prefixed_uuid("pool-"),
            name,
            template_id,
            desired_count: 3,
            warm_count: 1,
            max_per_host: 10,
            created_at: trusted::now_millis(),
        }
    }

    pub fn with_count(self, desired: usize) -> (r: Self)
        ensures
            r == (VMPool { desired_count: desired, ..self }),
    {
        VMPool { desired_count: desired, ..self }
    }

    pub fn with_warm_count(self, warm: usize) -> (r: Self)
        ensures
            r == (VMPool { warm_count: warm, ..self }),
    {
        VMPool { warm_count: warm, ..self }
    }

    pub fn with_max_per_host(self, max: usize) -> (r: Self)
        ensures
            r == (VMPool { max_per_host: max, ..self }),
    {
        VMPool { max_per_host: max, ..self }
    }
}

/// Pool status summary: membership bucketed by state.
#[derive(Debug, Clone)]
pub struct PoolStatus {
    pub id: String,
    pub name: String,
    pub template_id: String,
    pub desired_count: usize,
    pub total_vms: usize,
    pub running_vms: usize,
    pub saved_vms: usize,
    pub off_vms: usize,
    pub error_vms: usize,
}

} // verus!

//! Data models: templates, pools, VMs and task leases.

pub mod agent;
pub mod pool;
pub mod template;
pub mod vm;

//! VM model.

use vstd::prelude::*;

use crate::strutil;
use crate::trusted;

verus! {

/// State of a VM.
#[derive(Debug, Clone, Copy, PartialEq, Eq, Structural)]
pub enum VMState {
    /// Never started or fully shut down.
    Off,
    /// Currently executing.
    Running,
    /// State saved to disk, ready for fast resume.
    Saved,
    /// Paused in memory.
    Paused,
    /// Something went wrong.
    Error,
}

/// The stable token for a VM state.
pub open spec fn state_label(s: VMState) -> Seq<char> {
    match s {
        VMState::Off => "Off"@,
        VMState::Running => "Running"@,
        VMState::Saved => "Saved"@,
        VMState::Paused => "Paused"@,
        VMState::Error => "Error"@,
    }
}

/// The domain state that a raw hypervisor state code maps to.
pub open spec fn state_from_raw(raw: i32) -> VMState {
    if raw == 2 {
        VMState::Off
    } else if raw == 3 {
        VMState::Running
    } else if raw == 6 {
        VMState::Saved
    } else if raw == 9 {
        VMState::Paused
    } else {
        VMState::Error
    }
}

/// The raw hypervisor state code that a domain state maps back to.
/// `Error` has no raw code of its own; it maps to a code outside the
/// defined set, so that `state_from_raw` takes it back to `Error`.
pub open spec fn state_to_raw(s: VMState) -> i32 {
    match s {
        VMState::Off => 2,
        VMState::Running => 3,
        VMState::Saved => 6,
        VMState::Paused => 9,
        VMState::Error => 0,
    }
}

/// Mapping a state to its raw code and back yields the same state,
/// for every defined state.
pub proof fn lemma_state_raw_round_trip(s: VMState)
    ensures
        state_from_raw(state_to_raw(s)) == s,
{
}

impl VMState {
    /// The domain state for a raw hypervisor state code.
    pub fn from_hyperv_state(state: i32) -> (r: Self)
        ensures
            r == state_from_raw(state),
    {
        match state {
            2 => VMState::Off,
            3 => VMState::Running,
            6 => VMState::Saved,
            9 => VMState::Paused,
            _ => VMState::Error,
        }
    }

    /// The raw hypervisor state code for this state.
    pub fn to_hyperv_state(&self) -> (r: i32)
        ensures
            r == state_to_raw(*self),
    {
        match self {
            VMState::Off => 2,
            VMState::Running => 3,
            VMState::Saved => 6,
            VMState::Paused => 9,
            VMState::Error => 0,
        }
    }

    /// The stable token for this state.
    pub fn as_str(&self) -> (r: &'static str)
        ensures
            r@ == state_label(*self),
    {
        match self {
            VMState::Off => "Off",
            VMState::Running => "Running",
            VMState::Saved => "Saved",
            VMState::Paused => "Paused",
            VMState::Error => "Error",
        }
    }
}

/// The mathematical value of a [`VM`] row: every string as a sequence of
/// characters, every timestamp as milliseconds since the Unix epoch.
pub struct VmModel {
    pub id: Seq<char>,
    pub name: Seq<char>,
    pub template_id: Option<Seq<char>>,
    pub pool_id: Option<Seq<char>>,
    pub state: VMState,
    pub vhdx_path: Seq<char>,
    pub ip_address: Option<Seq<char>>,
    pub memory_mb: u64,
    pub cpu_count: u32,
    pub gpu_enabled: bool,
    pub current_agent_id: Option<Seq<char>>,
    pub created_at: i64,
    pub last_resumed_at: Option<i64>,
    pub error_message: Option<Seq<char>>,
}

impl VmModel {
    /// A VM is acquirable when it sits saved on disk and nobody leases it.
    pub open spec fn is_available(self) -> bool {
        self.state == VMState::Saved && self.current_agent_id is None
    }
}

/// A VM instance.
#[derive(Debug)]
pub struct VM {
    /// Unique identifier.
    pub id: String,
    /// Hypervisor VM name.
    pub name: String,
    /// Template this VM was created from.
    pub template_id: Option<String>,
    /// Pool this VM belongs to.
    pub pool_id: Option<String>,
    /// Current state.
    pub state: VMState,
    /// Path to the per-VM differencing disk.
    pub vhdx_path: String,
    /// IP address, if running and known.
    pub ip_address: Option<String>,
    /// Memory in MB.
    pub memory_mb: u64,
    /// CPU count.
    pub cpu_count: u32,
    /// GPU enabled.
    pub gpu_enabled: bool,
    /// Currently assigned lease holder.
    pub current_agent_id: Option<String>,
    /// Creation time, milliseconds since the Unix epoch.
    pub created_at: i64,
    /// Last resume time, milliseconds since the Unix epoch.
    pub last_resumed_at: Option<i64>,
    /// Error message if in error state.
    pub error_message: Option<String>,
}

impl View for VM {
    type V = VmModel;

    open spec fn view(&self) -> VmModel {
        VmModel {
            id: self.id@,
            name: self.name@,
            template_id: self.template_id.deep_view(),
            pool_id: self.pool_id.deep_view(),
            state: self.state,
            vhdx_path: self.vhdx_path@,
            ip_address: self.ip_address.deep_view(),
            memory_mb: self.memory_mb,
            cpu_count: self.cpu_count,
            gpu_enabled: self.gpu_enabled,
            current_agent_id: self.current_agent_id.deep_view(),
            created_at: self.created_at,
            last_resumed_at: self.last_resumed_at,
            error_message: self.error_message.deep_view(),
        }
    }
}

impl DeepView for VM {
    type V = VmModel;

    open spec fn deep_view(&self) -> VmModel {
        self.view()
    }
}

impl Clone for VM {
    /// A copy with the same mathematical value.
    fn clone(&self) -> (r: Self)
        ensures
            r@ == self@,
    {
        VM {
            id: strutil::s_clone(&self.id),
            name: strutil::s_clone(&self.name),
            template_id: strutil::opt_clone(&self.template_id),
            pool_id: strutil::opt_clone(&self.pool_id),
            state: self.state,
            vhdx_path: strutil::s_clone(&self.vhdx_path),
            ip_address: strutil::opt_clone(&self.ip_address),
            memory_mb: self.memory_mb,
            cpu_count: self.cpu_count,
            gpu_enabled: self.gpu_enabled,
            current_agent_id: strutil::opt_clone(&self.current_agent_id),
            created_at: self.created_at,
            last_resumed_at: self.last_resumed_at,
            error_message: strutil::opt_clone(&self.error_message),
        }
    }
}

impl VM {
    /// A fresh VM row in state `Off`, with a newly minted `vm-` id.
    pub fn new(name: String, vhdx_path: String, memory_mb: u64, cpu_count: u32) -> (r: Self)
        ensures
            r@.id.len() == 39,
            r@.id.subrange(0, 3) == "vm-"@,
            r@.name == name@,
            r@.template_id is None,
            r@.pool_id is None,
            r@.state == VMState::Off,
            r@.vhdx_path == vhdx_path@,
            r@.ip_address is None,
            r@.memory_mb == memory_mb,
            r@.cpu_count == cpu_count,
            !r@.gpu_enabled,
            r@.current_agent_id is None,
            r@.last_resumed_at is None,
            r@.error_message is None,
    {
        proof {
            reveal_strlit("vm-");
        }
        VM {
            id: trusted::prefixed_uuid("vm-"),
            name,
            template_id: None,
            pool_id: None,
            state: VMState::Off,
            vhdx_path,
            ip_address: None,
            memory_mb,
            cpu_count,
            gpu_enabled: false,
            current_agent_id: None,
            created_at: trusted::now_millis(),
            last_resumed_at: None,
            error_message: None,
        }
    }

    /// Whether this VM can be handed out by an acquisition.
    pub fn is_available(&self) -> (r: bool)
        ensures
            r == self@.is_available(),
    {
        self.state == VMState::Saved && self.current_agent_id.is_none()
    }
}

/// Builder for VM configuration.
#[derive(Debug, Clone)]
pub struct VMConfig {
    pub name: String,
    pub template_id: Option<String>,
    pub pool_id: Option<String>,
    pub vhdx_path: Option<String>,
    pub memory_mb: u64,
    pub cpu_count: u32,
    pub gpu_enabled: bool,
}

impl VMConfig {
    /// A configuration with the default hardware shape.
    pub fn new(name: String) -> (r: Self)
        ensures
            r.name == name,
            r.template_id is None,
            r.pool_id is None,
            r.vhdx_path is None,
            r.memory_mb == 4096,
            r.cpu_count == 2,
            !r.gpu_enabled,
    {
        VMConfig {
            name,
            template_id: None,
            pool_id: None,
            vhdx_path: None,
            memory_mb: 4096,
            cpu_count: 2,
            gpu_enabled: false,
        }
    }

    pub fn template(self, id: String) -> (r: Self)
        ensures
            r == (VMConfig { template_id: Some(id), ..self }),
    {
        VMConfig { template_id: Some(id), ..self }
    }

    pub fn pool(self, id: String) -> (r: Self)
        ensures
            r == (VMConfig { pool_id: Some(id), ..self }),
    {
        VMConfig { pool_id: Some(id), ..self }
    }

    pub fn vhdx_path(self, path: String) -> (r: Self)
        ensures
            r == (VMConfig { vhdx_path: Some(path), ..self }),
    {
        VMConfig { vhdx_path: Some(path), ..self }
    }

    pub fn memory_mb(self, mb: u64) -> (r: Self)
        ensures
            r == (VMConfig { memory_mb: mb, ..self }),
    {
        VMConfig { memory_mb: mb, ..self }
    }

    pub fn cpu_count(self, count: u32) -> (r: Self)
        ensures
            r == (VMConfig { cpu_count: count, ..self }),
    {
        VMConfig { cpu_count: count, ..self }
    }

    pub fn gpu(self, enabled: bool) -> (r: Self)
        ensures
            r == (VMConfig { gpu_enabled: enabled, ..self }),
    {
        VMConfig { gpu_enabled: enabled, ..self }
    }
}

} // verus!

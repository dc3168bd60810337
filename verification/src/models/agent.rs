//! Task lease model.

use vstd::prelude::*;

verus! {

/// Status of a task lease on a VM.
#[derive(Debug, Clone, Copy, PartialEq, Eq, Structural)]
pub enum AgentStatus {
    /// Waiting for a VM.
    Pending,
    /// VM assigned, preparing.
    Scheduled,
    /// Running on a VM.
    Running,
    /// Completed successfully.
    Completed,
    /// Failed with an error.
    Failed,
    /// Cancelled by the user.
    Cancelled,
}

/// The stable token for an agent status.
pub open spec fn agent_status_label(s: AgentStatus) -> Seq<char> {
    match s {
        AgentStatus::Pending => "Pending"@,
        AgentStatus::Scheduled => "Scheduled"@,
        AgentStatus::Running => "Running"@,
        AgentStatus::Completed => "Completed"@,
        AgentStatus::Failed => "Failed"@,
        AgentStatus::Cancelled => "Cancelled"@,
    }
}

impl AgentStatus {
    /// The stable token for this status.
    pub fn as_str(&self) -> (r: &'static str)
        ensures
            r@ == agent_status_label(*self),
    {
        match self {
            AgentStatus::Pending => "Pending",
            AgentStatus::Scheduled => "Scheduled",
            AgentStatus::Running => "Running",
            AgentStatus::Completed => "Completed",
            AgentStatus::Failed => "Failed",
            AgentStatus::Cancelled => "Cancelled",
        }
    }
}

} // verus!

//! Sandbox state, as the compute-service side of the system reports it.

use vstd::prelude::*;

verus! {

/// State of a sandbox.
#[derive(Debug, Clone, Copy, PartialEq, Eq, Structural)]
pub enum SandboxState {
    Creating,
    Created,
    Starting,
    Running,
    Paused,
    Stopping,
    Stopped,
    Error,
}

/// The stable token for a sandbox state.
pub open spec fn sandbox_state_label(s: SandboxState) -> Seq<char> {
    match s {
        SandboxState::Creating => "Creating"@,
        SandboxState::Created => "Created"@,
        SandboxState::Starting => "Starting"@,
        SandboxState::Running => "Running"@,
        SandboxState::Paused => "Paused"@,
        SandboxState::Stopping => "Stopping"@,
        SandboxState::Stopped => "Stopped"@,
        SandboxState::Error => "Error"@,
    }
}

impl SandboxState {
    /// The stable token for this state.
    pub fn as_str(&self) -> (r: &'static str)
        ensures
            r@ == sandbox_state_label(*self),
    {
        match self {
            SandboxState::Creating => "Creating",
            SandboxState::Created => "Created",
            SandboxState::Starting => "Starting",
            SandboxState::Running => "Running",
            SandboxState::Paused => "Paused",
            SandboxState::Stopping => "Stopping",
            SandboxState::Stopped => "Stopped",
            SandboxState::Error => "Error",
        }
    }
}

} // verus!

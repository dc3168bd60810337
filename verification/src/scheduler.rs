//! Task status for the acquire/execute/release pattern. The execution loop
//! itself lives in the surrounding binary; the core only defines the status
//! a task moves through.

use vstd::prelude::*;

verus! {

/// Status of a task executed on a pooled sandbox.
#[derive(Debug, Clone, Copy, PartialEq, Eq, Structural)]
pub enum TaskStatus {
    Pending,
    Acquiring,
    Running,
    Completed,
    Failed,
}

} // verus!

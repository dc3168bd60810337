//! The orchestrator's guarantees, stated and proved over the catalog model.
//!
//! Each law speaks of the spec-level transitions that the orchestrator's
//! step functions commit (their `ensures` tie them to these transitions), so
//! that what holds here holds of every run of the executable protocol.

use vstd::prelude::*;

use crate::models::vm::VMState;
use crate::orchestrator::{
    failed_row, ready_row, reset_row, saved_row, started_row, with_vm,
};
use crate::store::StoreModel;

verus! {

/// In a well-formed catalog, no two VMs hold the same name: any given name
/// belongs to at most one VM.
pub proof fn lemma_vm_names_unique(m: StoreModel, i: int, j: int)
    requires
        m.wf(),
        0 <= i < m.vms.len(),
        0 <= j < m.vms.len(),
        i != j,
    ensures
        m.vms[i].name != m.vms[j].name,
{
}

/// A leased VM is not acquirable: while a caller holds the lease on the VM
/// at index `k`, no acquisition in any pool can observe it as available, so
/// none can return it.
pub proof fn lemma_lease_holder_excluded(m: StoreModel, pool_id: Seq<char>, k: int)
    requires
        0 <= k < m.vms.len(),
        m.vms[k].current_agent_id is Some,
    ensures
        !m.vms[k].is_available(),
        forall|j: int|
            0 <= j < m.vms.len() && (#[trigger] m.vms[j]).pool_id == Some(pool_id)
                && m.vms[j].is_available() ==> j != k,
{
}

/// Resuming a saved VM ends with the VM running and a non-empty IP recorded,
/// or, on failure, with the VM in the error state. (A resume that is refused
/// up front commits nothing, so the VM stays saved.)
pub proof fn lemma_resume_outcomes(
    m: StoreModel,
    k: int,
    now: i64,
    ip: Seq<char>,
    msg: Seq<char>,
)
    requires
        0 <= k < m.vms.len(),
        m.vms[k].state == VMState::Saved,
        ip.len() > 0,
    ensures
        ({
            let done = with_vm(
                with_vm(m, k, started_row(m.vms[k], now)),
                k,
                ready_row(started_row(m.vms[k], now), ip),
            );
            done.vms[k].state == VMState::Running && done.vms[k].ip_address == Some(ip)
                && done.vms[k].ip_address->Some_0.len() > 0
        }),
        ({
            let failed = with_vm(
                with_vm(m, k, started_row(m.vms[k], now)),
                k,
                failed_row(started_row(m.vms[k], now), msg),
            );
            failed.vms[k].state == VMState::Error
        }),
{
}

/// The fast release path leaves the VM saved with its lease cleared, which
/// makes it acquirable again.
pub proof fn lemma_release_fast_path(m: StoreModel, k: int)
    requires
        0 <= k < m.vms.len(),
    ensures
        ({
            let released = with_vm(m, k, saved_row(m.vms[k]));
            released.vms[k].state == VMState::Saved && released.vms[k].current_agent_id is None
                && released.vms[k].is_available()
        }),
{
}

/// The reset path leaves the VM off at its clean checkpoint, with lease and
/// IP cleared; the warm-up that follows starts from exactly that state.
pub proof fn lemma_reset_path(m: StoreModel, k: int)
    requires
        0 <= k < m.vms.len(),
    ensures
        ({
            let reset = with_vm(m, k, reset_row(m.vms[k]));
            reset.vms[k].state == VMState::Off && reset.vms[k].current_agent_id is None
                && reset.vms[k].ip_address is None
        }),
{
}

} // verus!

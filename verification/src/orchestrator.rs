//! VM orchestration and lifecycle management.
//!
//! The orchestrator owns the catalog and validates every command against it.
//! Operations that involve the hypervisor are split into steps: a `begin`
//! step that checks the precondition against the catalog, and `started` /
//! `finish` / `fail` steps that commit the outcome of the hypervisor call
//! that the surrounding binary performed in between. Everything the steps do
//! to the catalog is stated exactly in their contracts.

use vstd::prelude::*;

use crate::decimal;
use crate::error::Error;
use crate::hyperv::HyperVInfo;
use crate::models::pool::{PoolModel, PoolStatus, VMPool};
use crate::models::template::{Template, TemplateModel};
use crate::models::vm::{state_label, VmModel, VM, VMState};
use crate::store::{
    count_in_state, reconcile_model, vms_of_pool, Database, StoreModel,
};
use crate::strutil;
use crate::trusted;

verus! {

/// Configuration for the orchestrator.
#[derive(Debug, Clone)]
pub struct OrchestratorConfig {
    /// Base path for per-VM storage directories.
    pub vm_storage_path: String,
    /// Path of the durable catalog.
    pub db_path: String,
    /// Virtual switch that new VMs are connected to.
    pub switch_name: String,
    /// Bound, in seconds, on waiting for a booting VM to become ready.
    pub ready_timeout_secs: u64,
}

impl Default for OrchestratorConfig {
    /// The stock configuration.
    fn default() -> (r: Self)
        ensures
            r.vm_storage_path@ == "C:\\HyperVKube\\VMs"@,
            r.db_path@ == "C:\\HyperVKube\\state.db"@,
            r.switch_name@ == "Default Switch"@,
            r.ready_timeout_secs == 120,
    {
        OrchestratorConfig {
            vm_storage_path: strutil::s("C:\\HyperVKube\\VMs"),
            db_path: strutil::s("C:\\HyperVKube\\state.db"),
            switch_name: strutil::s("Default Switch"),
            ready_timeout_secs: 120,
        }
    }
}

/// A catalog with one VM row replaced.
pub open spec fn with_vm(m: StoreModel, k: int, v: VmModel) -> StoreModel {
    StoreModel { vms: m.vms.update(k, v), ..m }
}

/// A VM row the moment a resume is committed: running, resume time stamped.
pub open spec fn started_row(v: VmModel, now: i64) -> VmModel {
    VmModel { state: VMState::Running, last_resumed_at: Some(now), ..v }
}

/// A VM row the moment a first boot is committed: running.
pub open spec fn running_row(v: VmModel) -> VmModel {
    VmModel { state: VMState::Running, ..v }
}

/// A VM row once its guest reported ready: the IP is recorded.
pub open spec fn ready_row(v: VmModel, ip: Seq<char>) -> VmModel {
    VmModel { ip_address: Some(ip), ..v }
}

/// A VM row after a failed operation: the error state, with the reason.
pub open spec fn failed_row(v: VmModel, msg: Seq<char>) -> VmModel {
    VmModel { state: VMState::Error, error_message: Some(msg), ..v }
}

/// A VM row after the fast release path: saved, lease cleared.
pub open spec fn saved_row(v: VmModel) -> VmModel {
    VmModel { state: VMState::Saved, current_agent_id: None, ..v }
}

/// A VM row after a warm-up completed: saved, lease untouched.
pub open spec fn prepared_row(v: VmModel) -> VmModel {
    VmModel { state: VMState::Saved, ..v }
}

/// A VM row after a restore to the clean checkpoint: off, lease and IP
/// cleared.
pub open spec fn reset_row(v: VmModel) -> VmModel {
    VmModel { state: VMState::Off, current_agent_id: None, ip_address: None, ..v }
}

/// A VM row after a stop: off.
pub open spec fn stopped_row(v: VmModel) -> VmModel {
    VmModel { state: VMState::Off, ..v }
}

/// A VM row with its lease cleared and nothing else changed.
pub open spec fn released_row(v: VmModel) -> VmModel {
    VmModel { current_agent_id: None, ..v }
}

/// The name of the `idx`-th VM of a pool.
pub open spec fn provision_name(pool_name: Seq<char>, idx: nat) -> Seq<char> {
    pool_name + "-"@ + crate::decimal::dec_digits(idx)
}

/// The per-VM directory under the storage root.
pub open spec fn vm_dir(root: Seq<char>, name: Seq<char>) -> Seq<char> {
    root + "\\"@ + name
}

/// The differencing-disk path inside a per-VM directory.
pub open spec fn vm_disk_path(root: Seq<char>, name: Seq<char>) -> Seq<char> {
    vm_dir(root, name) + "\\disk.vhdx"@
}

/// Distinct pool indices yield distinct VM names.
pub proof fn lemma_provision_names_injective(pool_name: Seq<char>, a: nat, b: nat)
    ensures
        provision_name(pool_name, a) == provision_name(pool_name, b) ==> a == b,
{
    if provision_name(pool_name, a) == provision_name(pool_name, b) {
        let p = pool_name + "-"@;
        let na = provision_name(pool_name, a);
        let nb = provision_name(pool_name, b);
        assert(crate::decimal::dec_digits(a) =~= na.subrange(p.len() as int, na.len() as int));
        assert(crate::decimal::dec_digits(b) =~= nb.subrange(p.len() as int, nb.len() as int));
        crate::decimal::lemma_dec_digits_injective(a, b);
    }
}

/// The row that provisioning adds for the `idx`-th VM of a pool.
pub open spec fn provisioned_vm(
    pool: PoolModel,
    tmpl: TemplateModel,
    id: Seq<char>,
    idx: nat,
    root: Seq<char>,
    now: i64,
) -> VmModel {
    VmModel {
        id: id,
        name: provision_name(pool.name, idx),
        template_id: Some(tmpl.id),
        pool_id: Some(pool.id),
        state: VMState::Off,
        vhdx_path: vm_disk_path(root, provision_name(pool.name, idx)),
        ip_address: None,
        memory_mb: tmpl.memory_mb,
        cpu_count: tmpl.cpu_count,
        gpu_enabled: tmpl.gpu_enabled,
        current_agent_id: None,
        created_at: now,
        last_resumed_at: None,
        error_message: None,
    }
}

/// The rows that provisioning adds, one per fresh id, at consecutive pool
/// indices from `start` on.
pub open spec fn provision_batch(
    pool: PoolModel,
    tmpl: TemplateModel,
    ids: Seq<Seq<char>>,
    start: nat,
    root: Seq<char>,
    now: i64,
) -> Seq<VmModel> {
    Seq::new(ids.len(), |i: int| provisioned_vm(pool, tmpl, ids[i], (start + i) as nat, root, now))
}

/// Whether some of the names that provisioning would use is already taken.
pub open spec fn provision_name_taken(
    m: StoreModel,
    pool_name: Seq<char>,
    start: nat,
    count: nat,
) -> bool {
    exists|i: int|
        0 <= i < count && m.has_vm_name(#[trigger] provision_name(pool_name, (start + i) as nat))
}

/// Whether some of the fresh ids is already taken or repeated.
pub open spec fn provision_ids_clash(m: StoreModel, ids: Seq<Seq<char>>) -> bool {
    (exists|i: int| 0 <= i < ids.len() && m.has_vm_id(#[trigger] ids[i])) || (exists|i: int, j: int|
        #![trigger ids[i], ids[j]]
        0 <= i < j < ids.len() && ids[i] == ids[j])
}

/// What a failed resume records.
pub open spec fn no_ip_message() -> Seq<char> {
    "VM reported no IP address"@
}

/// Main orchestrator for VM management.
pub struct Orchestrator {
    db: Database,
    config: OrchestratorConfig,
}

impl View for Orchestrator {
    type V = StoreModel;

    closed spec fn view(&self) -> StoreModel {
        self.db@
    }
}

impl Orchestrator {
    /// The storage root under which per-VM directories are created.
    pub closed spec fn storage_root(&self) -> Seq<char> {
        self.config.vm_storage_path@
    }

    /// The configuration, for specification purposes.
    pub closed spec fn spec_config(&self) -> OrchestratorConfig {
        self.config
    }

    /// The orchestrator's configuration.
    pub fn config(&self) -> (r: &OrchestratorConfig)
        ensures
            r == self.spec_config(),
    {
        &self.config
    }

    /// Create an orchestrator with the stock configuration.
    pub fn new() -> (r: Self)
        ensures
            r@.wf(),
            r@.templates.len() == 0,
            r@.pools.len() == 0,
            r@.vms.len() == 0,
    {
        Orchestrator { db: Database::new(), config: OrchestratorConfig::default() }
    }

    /// Create an orchestrator with a custom configuration.
    pub fn with_config(config: OrchestratorConfig) -> (r: Self)
        ensures
            r@.wf(),
            r@.templates.len() == 0,
            r@.pools.len() == 0,
            r@.vms.len() == 0,
            r.storage_root() == config.vm_storage_path@,
    {
        Orchestrator { db: Database::new(), config }
    }

    /// The catalog.
    pub fn db(&self) -> (r: &Database)
        ensures
            r@ == self@,
    {
        &self.db
    }

    // ===== Template operations =====

    /// Register a template (golden image). The caller reports whether the
    /// base disk exists on the host; registration is refused without it.
    pub fn register_template(&mut self, template: Template, vhdx_exists: bool) -> (r: Result<
        String,
        Error,
    >)
        requires
            old(self)@.wf(),
        ensures
            final(self)@.wf(),
            r is Ok <==> vhdx_exists && !old(self)@.has_template_id(template@.id) && !old(self)@.has_template_name(template@.name),
            r matches Ok(id) ==> id@ == template@.id && final(self)@.templates == old(self)@.templates.push(template@) && final(self)@.pools == old(self)@.pools && final(self)@.vms == old(self)@.vms,
            r is Err ==> final(self)@ == old(self)@,
            !vhdx_exists ==> (r matches Err(e) && e is Other),
            vhdx_exists && !(r is Ok) ==> (r matches Err(e) && e is Conflict),
    {
        if !vhdx_exists {
            return Err(Error::Other(strutil::s("template VHDX not found")));
        }
        let id = strutil::s_clone(&template.id);
        match self.db.insert_template(&template) {
            Ok(()) => Ok(id),
            Err(e) => Err(e),
        }
    }

    /// All templates.
    pub fn list_templates(&self) -> (r: Vec<Template>)
        ensures
            r.deep_view() == self@.templates,
    {
        self.db.list_templates()
    }

    /// The template with the given name, if any.
    pub fn get_template(&self, name: &str) -> (r: Option<Template>)
        ensures
            r is Some <==> self@.has_template_name(name@),
            r matches Some(t) ==> exists|k: int|
                0 <= k < self@.templates.len() && (#[trigger] self@.templates[k]) == t@ && t@.name
                    == name@,
    {
        let r = self.db.get_template_by_name(name);
        proof {
            assert(self@.templates == self.db@.templates);
        }
        r
    }

    // ===== Pool operations =====

    /// Create a VM pool. Fails with `TemplateNotFound` when the referenced
    /// template does not exist, and with `Conflict` when the pool id or name
    /// is already taken.
    pub fn create_pool(&mut self, pool: VMPool) -> (r: Result<String, Error>)
        requires
            old(self)@.wf(),
        ensures
            final(self)@.wf(),
            r is Ok <==> old(self)@.has_template_id(pool@.template_id) && !old(self)@.has_pool_id(
                pool@.id,
            ) && !old(self)@.has_pool_name(pool@.name),
            r matches Ok(id) ==> id@ == pool@.id && final(self)@.pools == old(self)@.pools.push(
                pool@,
            ) && final(self)@.templates == old(self)@.templates && final(self)@.vms == old(self)@.vms,
            r is Err ==> final(self)@ == old(self)@,
            !old(self)@.has_template_id(pool@.template_id) ==> (r matches Err(e)
                && e is TemplateNotFound),
            old(self)@.has_template_id(pool@.template_id) && !(r is Ok) ==> (r matches Err(e)
                && e is Conflict),
    {
        if self.db.get_template(strutil::as_str(&pool.template_id)).is_none() {
            return Err(Error::TemplateNotFound(strutil::s_clone(&pool.template_id)));
        }
        let id = strutil::s_clone(&pool.id);
        match self.db.insert_pool(&pool) {
            Ok(()) => Ok(id),
            Err(e) => Err(e),
        }
    }

    /// Delete the template with the given id. Refused with `Conflict`
    /// exactly when a pool still references it; `Ok(false)` when no such
    /// template exists.
    pub fn delete_template(&mut self, id: &str) -> (r: Result<bool, Error>)
        requires
            old(self)@.wf(),
        ensures
            final(self)@.wf(),
            r == Ok::<bool, Error>(false) <==> !old(self)@.has_template_id(id@),
            r is Err <==> old(self)@.has_template_id(id@) && old(self)@.template_referenced(id@),
            r matches Err(e) ==> e is Conflict && final(self)@ == old(self)@,
            r == Ok::<bool, Error>(false) ==> final(self)@ == old(self)@,
            r == Ok::<bool, Error>(true) ==> final(self)@.templates == old(self)@.templates.remove(
                old(self)@.template_idx(id@),
            ) && final(self)@.pools == old(self)@.pools && final(self)@.vms == old(self)@.vms,
    {
        self.db.delete_template(id)
    }

    /// Delete the pool with the given id. Returns whether a row was
    /// removed; the pool's VMs stay in the catalog.
    pub fn delete_pool(&mut self, id: &str) -> (r: bool)
        requires
            old(self)@.wf(),
        ensures
            final(self)@.wf(),
            r <==> old(self)@.has_pool_id(id@),
            !r ==> final(self)@ == old(self)@,
            r ==> final(self)@.pools == old(self)@.pools.remove(old(self)@.pool_idx(id@))
                && final(self)@.templates == old(self)@.templates
                && final(self)@.vms == old(self)@.vms,
    {
        self.db.delete_pool(id)
    }

    /// All pools.
    pub fn list_pools(&self) -> (r: Vec<VMPool>)
        ensures
            r.deep_view() == self@.pools,
    {
        self.db.list_pools()
    }

    /// Membership of the given pool, bucketed by state. Fails with
    /// `PoolNotFound` exactly when the pool does not exist.
    pub fn get_pool_status(&self, pool_id: &str) -> (r: Result<PoolStatus, Error>)
        requires
            self@.wf(),
        ensures
            r is Ok <==> self@.has_pool_id(pool_id@),
            r matches Err(e) ==> e is PoolNotFound,
            r matches Ok(st) ==> ({
                let pool = self@.pools[self@.pool_idx(pool_id@)];
                let members = vms_of_pool(self@.vms, pool_id@);
                st.id@ == pool.id && st.name@ == pool.name && st.template_id@ == pool.template_id
                    && st.desired_count == pool.desired_count && st.total_vms == members.len()
                    && st.running_vms == count_in_state(members, VMState::Running)
                    && st.saved_vms == count_in_state(members, VMState::Saved) && st.off_vms
                    == count_in_state(members, VMState::Off) && st.error_vms == count_in_state(
                    members,
                    VMState::Error,
                )
            }),
    {
        let pool = match self.db.get_pool(pool_id) {
            Some(p) => p,
            None => {
                return Err(Error::PoolNotFound(strutil::s(pool_id)));
            },
        };
        proof {
            let w = choose|k: int|
                0 <= k < self@.pools.len() && (#[trigger] self@.pools[k]) == pool@ && pool@.id
                    == pool_id@;
            assert(self@.pool_idx(pool_id@) == w) by {
                let x = self@.pool_idx(pool_id@);
                assert(0 <= x < self@.pools.len() && self@.pools[x].id == pool_id@);
            }
        }
        let vms = self.db.list_vms_by_pool(pool_id);
        let ghost members = vms_of_pool(self@.vms, pool_id@);
        let mut running: usize = 0;
        let mut saved: usize = 0;
        let mut off: usize = 0;
        let mut error: usize = 0;
        let mut i: usize = 0;
        proof {
            assert(members.subrange(0, 0) =~= Seq::<VmModel>::empty());
        }
        while i < vms.len()
            invariant
                vms.deep_view() == members,
                i <= members.len(),
                running == count_in_state(members.subrange(0, i as int), VMState::Running),
                saved == count_in_state(members.subrange(0, i as int), VMState::Saved),
                off == count_in_state(members.subrange(0, i as int), VMState::Off),
                error == count_in_state(members.subrange(0, i as int), VMState::Error),
                running <= i && saved <= i && off <= i && error <= i,
            decreases members.len() - i,
        {
            proof {
                assert(members.subrange(0, i as int + 1).drop_last() =~= members.subrange(
                    0,
                    i as int,
                ));
                assert(members.subrange(0, i as int + 1).last() == members[i as int]);
            }
            match vms[i].state {
                VMState::Running => {
                    running = running + 1;
                },
                VMState::Saved => {
                    saved = saved + 1;
                },
                VMState::Off => {
                    off = off + 1;
                },
                VMState::Error => {
                    error = error + 1;
                },
                VMState::Paused => {},
            }
            i = i + 1;
        }
        proof {
            assert(members.subrange(0, members.len() as int) =~= members);
        }
        Ok(
            PoolStatus {
                id: pool.id,
                name: pool.name,
                template_id: pool.template_id,
                desired_count: pool.desired_count,
                total_vms: vms.len(),
                running_vms: running,
                saved_vms: saved,
                off_vms: off,
                error_vms: error,
            },
        )
    }

    // ===== VM read operations =====

    /// All VMs.
    pub fn list_vms(&self) -> (r: Vec<VM>)
        ensures
            r.deep_view() == self@.vms,
    {
        self.db.list_vms()
    }

    /// The VM with the given name, if any.
    pub fn get_vm(&self, name: &str) -> (r: Option<VM>)
        requires
            self@.wf(),
        ensures
            r is Some <==> self@.has_vm_name(name@),
            r matches Some(v) ==> v@ == self@.vms[self@.vm_idx_by_name(name@)] && v@.name == name@,
    {
        self.db.get_vm_by_name(name)
    }

    // ===== Pool provisioning =====

    /// Add `count` VM rows to a pool, as one atomic step, using the given
    /// fresh ids: either every row goes in or the catalog is untouched.
    /// Names are `{pool.name}-{index}` at consecutive indices after the
    /// current membership; each row starts `Off` with the template's
    /// hardware shape. Fails with `PoolNotFound` when the pool is missing,
    /// with `BadRequest` when the pool would exceed its desired size, and
    /// with `Conflict` exactly when a name or id is taken or repeated.
    pub fn provision_pool_with(
        &mut self,
        pool_id: &str,
        count: usize,
        fresh_ids: Vec<String>,
        now: i64,
    ) -> (r: Result<Vec<String>, Error>)
        requires
            old(self)@.wf(),
            fresh_ids@.len() == count,
        ensures
            final(self)@.wf(),
            final(self).storage_root() == old(self).storage_root(),
            r is Err ==> final(self)@ == old(self)@,
            (r matches Err(e) && e is PoolNotFound) <==> !old(self)@.has_pool_id(pool_id@),
            old(self)@.has_pool_id(pool_id@) ==> ({
                let pool = old(self)@.pools[old(self)@.pool_idx(pool_id@)];
                let tmpl = old(self)@.templates[old(self)@.template_idx(pool.template_id)];
                let start = vms_of_pool(old(self)@.vms, pool_id@).len();
                &&& ((r matches Err(e) && e is BadRequest) <==> start + count
                    > pool.desired_count)
                &&& (start + count <= pool.desired_count ==> ((r matches Err(e)
                    && e is Conflict) <==> (provision_name_taken(
                    old(self)@,
                    pool.name,
                    start,
                    count as nat,
                ) || provision_ids_clash(old(self)@, fresh_ids.deep_view()))))
                &&& (r is Ok <==> start + count <= pool.desired_count && !provision_name_taken(
                    old(self)@,
                    pool.name,
                    start,
                    count as nat,
                ) && !provision_ids_clash(old(self)@, fresh_ids.deep_view()))
                &&& (r matches Ok(out) ==> out == fresh_ids && final(self)@.templates == old(self)@.templates && final(self)@.pools == old(self)@.pools && final(self)@.vms == old(self)@.vms + provision_batch(
                    pool,
                    tmpl,
                    fresh_ids.deep_view(),
                    start,
                    old(self).storage_root(),
                    now,
                ) && vms_of_pool(final(self)@.vms, pool_id@) == vms_of_pool(
                    old(self)@.vms,
                    pool_id@,
                ) + provision_batch(
                    pool,
                    tmpl,
                    fresh_ids.deep_view(),
                    start,
                    old(self).storage_root(),
                    now,
                ))
            }),
            !old(self)@.has_pool_id(pool_id@) ==> !(r is Ok),
    {
        let ghost m = old(self)@;
        let ghost idsv = fresh_ids.deep_view();
        let pool = match self.db.get_pool(pool_id) {
            Some(p) => p,
            None => {
                return Err(Error::PoolNotFound(strutil::s(pool_id)));
            },
        };
        proof {
            let w = choose|k: int|
                0 <= k < m.pools.len() && (#[trigger] m.pools[k]) == pool@ && pool@.id == pool_id@;
            assert(m.pool_idx(pool_id@) == w) by {
                let x = m.pool_idx(pool_id@);
                assert(0 <= x < m.pools.len() && m.pools[x].id == pool_id@);
            }
            assert(m.has_template_id(pool@.template_id));
        }
        let ghost poolm = m.pools[m.pool_idx(pool_id@)];
        let tmpl = match self.db.get_template(strutil::as_str(&pool.template_id)) {
            Some(t) => t,
            None => vstd::pervasive::unreached(),
        };
        proof {
            let w = choose|k: int|
                0 <= k < m.templates.len() && (#[trigger] m.templates[k]) == tmpl@ && tmpl@.id
                    == pool@.template_id;
            assert(m.template_idx(poolm.template_id) == w) by {
                let x = m.template_idx(poolm.template_id);
                assert(0 <= x < m.templates.len() && m.templates[x].id == poolm.template_id);
            }
        }
        let ghost tmplm = m.templates[m.template_idx(poolm.template_id)];
        let existing = self.db.list_vms_by_pool(pool_id);
        let start: usize = existing.len();
        let ghost startn = vms_of_pool(m.vms, pool_id@).len();
        if count > pool.desired_count || start > pool.desired_count - count {
            return Err(
                Error::BadRequest(strutil::s("provisioning would exceed the pool's desired size")),
            );
        }
        let ghost root = self.storage_root();

        // Build the batch and check every name and id against the catalog.
        let mut batch: Vec<VM> = Vec::new();
        let mut i: usize = 0;
        while i < count
            invariant
                self@ == m,
                m == old(self)@,
                m.wf(),
                m.has_pool_id(pool_id@),
                root == self.storage_root(),
                root == old(self).storage_root(),
                idsv == fresh_ids.deep_view(),
                idsv.len() == count,
                poolm == m.pools[m.pool_idx(pool_id@)],
                tmplm == m.templates[m.template_idx(poolm.template_id)],
                pool@ == poolm,
                tmpl@ == tmplm,
                startn == vms_of_pool(m.vms, pool_id@).len(),
                start == startn,
                start + count <= poolm.desired_count,
                i <= count,
                batch.deep_view().len() == i,
                forall|k: int|
                    0 <= k < i ==> batch.deep_view()[k] == provisioned_vm(
                        poolm,
                        tmplm,
                        idsv[k],
                        (startn + k) as nat,
                        root,
                        now,
                    ),
                forall|k: int|
                    0 <= k < i ==> !m.has_vm_name(
                        #[trigger] provision_name(poolm.name, (startn + k) as nat),
                    ),
                forall|k: int| 0 <= k < i ==> !m.has_vm_id(#[trigger] idsv[k]),
                forall|a: int, b: int|
                    #![trigger idsv[a], idsv[b]]
                    0 <= a < b < i ==> idsv[a] != idsv[b],
            decreases count - i,
        {
            let idx: usize = start + i;
            let mut nm = strutil::concat_str(&pool.name, "-");
            let digits = decimal::u64_to_string(idx as u64);
            nm.append(strutil::as_str(&digits));
            proof {
                assert(nm@ == provision_name(poolm.name, (startn + i) as nat));
            }
            if self.db.get_vm_by_name(strutil::as_str(&nm)).is_some() {
                proof {
                    assert(m.has_vm_name(provision_name(poolm.name, (startn + i) as nat)));
                    assert(provision_name_taken(m, poolm.name, startn, count as nat));
                }
                return Err(Error::Conflict(strutil::s("a provisioned vm name already exists")));
            }
            if self.db.get_vm(strutil::as_str(&fresh_ids[i])).is_some() {
                proof {
                    assert(m.has_vm_id(idsv[i as int]));
                    assert(provision_ids_clash(m, idsv));
                }
                return Err(Error::Conflict(strutil::s("a provisioned vm id already exists")));
            }
            let mut j: usize = 0;
            while j < i
                invariant
                    self@ == m,
                    m == old(self)@,
                    m.wf(),
                    m.has_pool_id(pool_id@),
                    idsv == fresh_ids.deep_view(),
                    idsv.len() == count,
                    poolm == m.pools[m.pool_idx(pool_id@)],
                    tmplm == m.templates[m.template_idx(poolm.template_id)],
                    startn == vms_of_pool(m.vms, pool_id@).len(),
                    start == startn,
                    start + count <= poolm.desired_count,
                    j <= i < count,
                    forall|a: int| 0 <= a < j ==> (#[trigger] idsv[a]) != idsv[i as int],
                decreases i - j,
            {
                if strutil::str_eq(
                    strutil::as_str(&fresh_ids[j]),
                    strutil::as_str(&fresh_ids[i]),
                ) {
                    proof {
                        assert(idsv[j as int] == idsv[i as int]);
                        assert(provision_ids_clash(m, idsv));
                    }
                    return Err(Error::Conflict(strutil::s("a provisioned vm id is repeated")));
                }
                j = j + 1;
            }
            let mut disk = strutil::concat_str(&self.config.vm_storage_path, "\\");
            disk.append(strutil::as_str(&nm));
            disk.append("\\disk.vhdx");
            let row = VM {
                id: strutil::s_clone(&fresh_ids[i]),
                name: nm,
                template_id: Some(strutil::s_clone(&tmpl.id)),
                pool_id: Some(strutil::s_clone(&pool.id)),
                state: VMState::Off,
                vhdx_path: disk,
                ip_address: None,
                memory_mb: tmpl.memory_mb,
                cpu_count: tmpl.cpu_count,
                gpu_enabled: tmpl.gpu_enabled,
                current_agent_id: None,
                created_at: now,
                last_resumed_at: None,
                error_message: None,
            };
            let ghost prev = batch.deep_view();
            proof {
                assert(row@ == provisioned_vm(
                    poolm,
                    tmplm,
                    idsv[i as int],
                    (startn + i) as nat,
                    root,
                    now,
                ));
            }
            batch.push(row);
            proof {
                assert(batch.deep_view() =~= prev.push(provisioned_vm(
                    poolm,
                    tmplm,
                    idsv[i as int],
                    (startn + i) as nat,
                    root,
                    now,
                )));
            }
            i = i + 1;
        }
        let ghost batchm = provision_batch(poolm, tmplm, idsv, startn, root, now);
        proof {
            assert(batch.deep_view() =~= batchm);
            // Names inside the batch never repeat: the indices differ.
            assert forall|a: int, b: int|
                #![trigger batchm[a], batchm[b]]
                0 <= a < b < batchm.len() implies batchm[a].id != batchm[b].id && batchm[a].name
                != batchm[b].name by {
                assert(batchm[a].name == provision_name(poolm.name, (startn + a) as nat));
                assert(batchm[b].name == provision_name(poolm.name, (startn + b) as nat));
                lemma_provision_names_injective(
                    poolm.name,
                    (startn + a) as nat,
                    (startn + b) as nat,
                );
            }
            assert(Database::rows_batch_ok(m, batchm)) by {
                assert forall|k: int|
                    0 <= k < batchm.len() implies !m.has_vm_id((#[trigger] batchm[k]).id)
                    && !m.has_vm_name(batchm[k].name) && (batchm[k].template_id matches Some(t)
                    ==> m.has_template_id(t)) && (batchm[k].pool_id matches Some(p)
                    ==> m.has_pool_id(p)) by {
                    assert(batchm[k].id == idsv[k]);
                    assert(batchm[k].name == provision_name(poolm.name, (startn + k) as nat));
                    assert(batchm[k].template_id == Some(tmplm.id));
                    assert(batchm[k].pool_id == Some(poolm.id));
                    assert(m.templates[m.template_idx(poolm.template_id)].id == tmplm.id);
                    assert(m.has_template_id(tmplm.id));
                    assert(m.pools[m.pool_idx(pool_id@)].id == poolm.id);
                    assert(m.has_pool_id(poolm.id));
                }
            }
        }
        match self.db.insert_vms_atomic(&batch) {
            Ok(()) => {},
            Err(_) => {
                return vstd::pervasive::unreached();
            },
        }
        proof {
            // Membership of the pool grows by exactly the batch.
            crate::store::lemma_vms_of_pool_concat(m.vms, batchm, pool_id@);
            assert forall|k: int|
                0 <= k < batchm.len() implies (#[trigger] batchm[k]).pool_id == Some(pool_id@) by {
                assert(batchm[k].pool_id == Some(poolm.id));
                assert(poolm.id == pool_id@);
            }
            crate::store::lemma_vms_of_pool_all(batchm, pool_id@);
            // No name or id was taken: the checks above covered every index.
            assert(!provision_name_taken(m, poolm.name, startn, count as nat));
            assert(!provision_ids_clash(m, idsv));
        }
        Ok(fresh_ids)
    }

    /// Add `count` VM rows to a pool with freshly minted ids, as one atomic
    /// step: either the pool's membership grows by exactly `count`, or the
    /// catalog is untouched. The returned ids are those of the new rows.
    pub fn provision_pool(&mut self, pool_id: &str, count: usize) -> (r: Result<Vec<String>, Error>)
        requires
            old(self)@.wf(),
        ensures
            final(self)@.wf(),
            final(self).storage_root() == old(self).storage_root(),
            r is Err ==> final(self)@ == old(self)@,
            (r matches Err(e) && e is PoolNotFound) <==> !old(self)@.has_pool_id(pool_id@),
            r matches Err(e) ==> e is PoolNotFound || e is BadRequest || e is Conflict,
            old(self)@.has_pool_id(pool_id@) ==> ({
                let pool = old(self)@.pools[old(self)@.pool_idx(pool_id@)];
                let tmpl = old(self)@.templates[old(self)@.template_idx(pool.template_id)];
                let start = vms_of_pool(old(self)@.vms, pool_id@).len();
                &&& ((r matches Err(e) && e is BadRequest) <==> start + count
                    > pool.desired_count)
                &&& (r matches Ok(out) ==> out.deep_view().len() == count && exists|t: i64|
                    final(self)@.vms == old(self)@.vms + #[trigger] provision_batch(
                        pool,
                        tmpl,
                        out.deep_view(),
                        start,
                        old(self).storage_root(),
                        t,
                    ) && vms_of_pool(final(self)@.vms, pool_id@) == vms_of_pool(
                        old(self)@.vms,
                        pool_id@,
                    ) + provision_batch(
                        pool,
                        tmpl,
                        out.deep_view(),
                        start,
                        old(self).storage_root(),
                        t,
                    ))
                &&& (r is Ok ==> final(self)@.templates == old(self)@.templates && final(self)@.pools == old(self)@.pools && final(self)@.vms.len() == old(self)@.vms.len()
                    + count && vms_of_pool(final(self)@.vms, pool_id@).len() == start + count)
            }),
    {
        let mut ids: Vec<String> = Vec::new();
        let mut i: usize = 0;
        while i < count
            invariant
                i <= count,
                ids@.len() == i,
            decreases count - i,
        {
            ids.push(crate::trusted::prefixed_uuid("vm-"));
            i = i + 1;
        }
        let now = crate::trusted::now_millis();
        self.provision_pool_with(pool_id, count, ids, now)
    }

    // ===== Lifecycle protocol =====
    //
    // Each hypervisor-backed operation is split around the hypervisor call:
    // `begin` validates the catalog precondition and names the VM to act on;
    // once the caller has performed the call, a commit step records the
    // outcome. A `begin` step never changes the catalog.

    /// Validate a fast resume: the VM must exist and sit in `Saved`.
    /// Returns the hypervisor name to resume. The catalog is not changed.
    pub fn resume_vm_begin(&self, vm_id: &str) -> (r: Result<String, Error>)
        requires
            self@.wf(),
        ensures
            r is Ok <==> self@.has_vm_id(vm_id@) && self@.vms[self@.vm_idx(vm_id@)].state
                == VMState::Saved,
            r matches Ok(name) ==> name@ == self@.vms[self@.vm_idx(vm_id@)].name,
            !self@.has_vm_id(vm_id@) ==> (r matches Err(e) && e matches Error::VMNotFound(x) && x@
                == vm_id@),
            self@.has_vm_id(vm_id@) && self@.vms[self@.vm_idx(vm_id@)].state != VMState::Saved ==> (
            r matches Err(e) && e matches Error::InvalidState { current, expected } && current@
                == state_label(self@.vms[self@.vm_idx(vm_id@)].state) && expected@ == "Saved"@),
    {
        match self.db.get_vm(vm_id) {
            None => Err(Error::VMNotFound(strutil::s(vm_id))),
            Some(vm) => {
                if vm.state == VMState::Saved {
                    Ok(vm.name)
                } else {
                    Err(
                        Error::InvalidState {
                            current: strutil::s(vm.state.as_str()),
                            expected: strutil::s("Saved"),
                        },
                    )
                }
            },
        }
    }

    /// Commit the start of a resume: the VM is now running and its resume
    /// time is stamped. A missing VM leaves the catalog unchanged.
    pub fn resume_vm_started(&mut self, vm_id: &str, now: i64)
        requires
            old(self)@.wf(),
        ensures
            final(self)@.wf(),
            !old(self)@.has_vm_id(vm_id@) ==> final(self)@ == old(self)@,
            old(self)@.has_vm_id(vm_id@) ==> final(self)@ == with_vm(
                old(self)@,
                old(self)@.vm_idx(vm_id@),
                started_row(old(self)@.vms[old(self)@.vm_idx(vm_id@)], now),
            ),
    {
        let ghost m = old(self)@;
        let ghost k = m.vm_idx(vm_id@);
        self.db.update_vm_state(vm_id, VMState::Running);
        proof {
            if m.has_vm_id(vm_id@) {
                assert(self.db@.vms[k].id == vm_id@);
                assert(self.db@.has_vm_id(vm_id@));
                assert(self.db@.vm_idx(vm_id@) == k) by {
                    let w = self.db@.vm_idx(vm_id@);
                    assert(0 <= w < self.db@.vms.len() && self.db@.vms[w].id == vm_id@);
                }
            }
        }
        self.db.update_vm_resumed(vm_id, now);
        proof {
            if m.has_vm_id(vm_id@) {
                assert(self@.vms =~= m.vms.update(k, started_row(m.vms[k], now)));
            }
        }
    }

    /// Commit readiness: record the IP the guest reported. An empty IP marks
    /// the VM failed instead and returns `NoIP`; a missing VM leaves the
    /// catalog unchanged and returns `VMNotFound`.
    pub fn record_vm_ready(&mut self, vm_id: &str, ip: &str) -> (r: Result<(), Error>)
        requires
            old(self)@.wf(),
        ensures
            final(self)@.wf(),
            r is Ok <==> old(self)@.has_vm_id(vm_id@) && ip@.len() > 0,
            !old(self)@.has_vm_id(vm_id@) ==> final(self)@ == old(self)@ && (r matches Err(e)
                && e is VMNotFound),
            old(self)@.has_vm_id(vm_id@) && ip@.len() == 0 ==> final(self)@ == with_vm(
                old(self)@,
                old(self)@.vm_idx(vm_id@),
                failed_row(old(self)@.vms[old(self)@.vm_idx(vm_id@)], no_ip_message()),
            ) && (r matches Err(e) && e is NoIP),
            r is Ok ==> final(self)@ == with_vm(
                old(self)@,
                old(self)@.vm_idx(vm_id@),
                ready_row(old(self)@.vms[old(self)@.vm_idx(vm_id@)], ip@),
            ),
    {
        if self.db.get_vm(vm_id).is_none() {
            return Err(Error::VMNotFound(strutil::s(vm_id)));
        }
        if ip.unicode_len() == 0 {
            self.db.mark_vm_error(vm_id, "VM reported no IP address");
            return Err(Error::NoIP);
        }
        self.db.update_vm_ip(vm_id, Some(ip));
        Ok(())
    }

    /// Record that an operation on the VM failed: the error state, with the
    /// reason. A missing VM leaves the catalog unchanged.
    pub fn mark_vm_error(&mut self, vm_id: &str, message: &str)
        requires
            old(self)@.wf(),
        ensures
            final(self)@.wf(),
            !old(self)@.has_vm_id(vm_id@) ==> final(self)@ == old(self)@,
            old(self)@.has_vm_id(vm_id@) ==> final(self)@ == with_vm(
                old(self)@,
                old(self)@.vm_idx(vm_id@),
                failed_row(old(self)@.vms[old(self)@.vm_idx(vm_id@)], message@),
            ),
    {
        self.db.mark_vm_error(vm_id, message);
    }

    /// Validate a save: the VM must exist and be running. Returns the
    /// hypervisor name to save. The catalog is not changed.
    pub fn save_vm_begin(&self, vm_id: &str) -> (r: Result<String, Error>)
        requires
            self@.wf(),
        ensures
            r is Ok <==> self@.has_vm_id(vm_id@) && self@.vms[self@.vm_idx(vm_id@)].state
                == VMState::Running,
            r matches Ok(name) ==> name@ == self@.vms[self@.vm_idx(vm_id@)].name,
            !self@.has_vm_id(vm_id@) ==> (r matches Err(e) && e matches Error::VMNotFound(x) && x@
                == vm_id@),
            self@.has_vm_id(vm_id@) && self@.vms[self@.vm_idx(vm_id@)].state != VMState::Running
                ==> (r matches Err(e) && e matches Error::InvalidState { current, expected }
                && current@ == state_label(self@.vms[self@.vm_idx(vm_id@)].state) && expected@
                == "Running"@),
    {
        match self.db.get_vm(vm_id) {
            None => Err(Error::VMNotFound(strutil::s(vm_id))),
            Some(vm) => {
                if vm.state == VMState::Running {
                    Ok(vm.name)
                } else {
                    Err(
                        Error::InvalidState {
                            current: strutil::s(vm.state.as_str()),
                            expected: strutil::s("Running"),
                        },
                    )
                }
            },
        }
    }

    /// Commit a save: the VM is saved to disk and its lease is cleared.
    /// A missing VM leaves the catalog unchanged.
    pub fn save_vm_finish(&mut self, vm_id: &str)
        requires
            old(self)@.wf(),
        ensures
            final(self)@.wf(),
            !old(self)@.has_vm_id(vm_id@) ==> final(self)@ == old(self)@,
            old(self)@.has_vm_id(vm_id@) ==> final(self)@ == with_vm(
                old(self)@,
                old(self)@.vm_idx(vm_id@),
                saved_row(old(self)@.vms[old(self)@.vm_idx(vm_id@)]),
            ),
    {
        let ghost m = old(self)@;
        let ghost k = m.vm_idx(vm_id@);
        self.db.update_vm_state(vm_id, VMState::Saved);
        proof {
            if m.has_vm_id(vm_id@) {
                assert(self.db@.vms[k].id == vm_id@);
                assert(self.db@.has_vm_id(vm_id@));
                assert(self.db@.vm_idx(vm_id@) == k) by {
                    let w = self.db@.vm_idx(vm_id@);
                    assert(0 <= w < self.db@.vms.len() && self.db@.vms[w].id == vm_id@);
                }
            }
        }
        self.db.update_vm_agent(vm_id, None);
        proof {
            if m.has_vm_id(vm_id@) {
                assert(self@.vms =~= m.vms.update(k, saved_row(m.vms[k])));
            }
        }
    }

    /// Validate a reset to the clean checkpoint: the VM must exist. Returns
    /// the hypervisor name and whether the VM is currently running (and so
    /// must be powered off first). The catalog is not changed.
    pub fn reset_vm_begin(&self, vm_id: &str) -> (r: Result<(String, bool), Error>)
        requires
            self@.wf(),
        ensures
            r is Ok <==> self@.has_vm_id(vm_id@),
            r matches Ok(p) ==> p.0@ == self@.vms[self@.vm_idx(vm_id@)].name && p.1 == (
            self@.vms[self@.vm_idx(vm_id@)].state == VMState::Running),
            r matches Err(e) ==> e matches Error::VMNotFound(x) && x@ == vm_id@,
    {
        match self.db.get_vm(vm_id) {
            None => Err(Error::VMNotFound(strutil::s(vm_id))),
            Some(vm) => {
                let running = vm.state == VMState::Running;
                Ok((vm.name, running))
            },
        }
    }

    /// Commit a reset: the VM is off at its clean checkpoint, its lease and
    /// IP are cleared. A missing VM leaves the catalog unchanged.
    pub fn reset_vm_finish(&mut self, vm_id: &str)
        requires
            old(self)@.wf(),
        ensures
            final(self)@.wf(),
            !old(self)@.has_vm_id(vm_id@) ==> final(self)@ == old(self)@,
            old(self)@.has_vm_id(vm_id@) ==> final(self)@ == with_vm(
                old(self)@,
                old(self)@.vm_idx(vm_id@),
                reset_row(old(self)@.vms[old(self)@.vm_idx(vm_id@)]),
            ),
    {
        let ghost m = old(self)@;
        let ghost k = m.vm_idx(vm_id@);
        self.db.update_vm_state(vm_id, VMState::Off);
        proof {
            if m.has_vm_id(vm_id@) {
                assert(self.db@.vms[k].id == vm_id@);
                assert(self.db@.has_vm_id(vm_id@));
                assert(self.db@.vm_idx(vm_id@) == k) by {
                    let w = self.db@.vm_idx(vm_id@);
                    assert(0 <= w < self.db@.vms.len() && self.db@.vms[w].id == vm_id@);
                }
            }
        }
        self.db.update_vm_agent(vm_id, None);
        proof {
            if m.has_vm_id(vm_id@) {
                assert(self.db@.vms[k].id == vm_id@);
                assert(self.db@.has_vm_id(vm_id@));
                assert(self.db@.vm_idx(vm_id@) == k) by {
                    let w = self.db@.vm_idx(vm_id@);
                    assert(0 <= w < self.db@.vms.len() && self.db@.vms[w].id == vm_id@);
                }
            }
        }
        self.db.update_vm_ip(vm_id, None);
        proof {
            if m.has_vm_id(vm_id@) {
                assert(self@.vms =~= m.vms.update(k, reset_row(m.vms[k])));
            }
        }
    }

    /// Validate a stop: the VM must exist. Returns the hypervisor name.
    /// The catalog is not changed.
    pub fn stop_vm_begin(&self, vm_id: &str) -> (r: Result<String, Error>)
        requires
            self@.wf(),
        ensures
            r is Ok <==> self@.has_vm_id(vm_id@),
            r matches Ok(name) ==> name@ == self@.vms[self@.vm_idx(vm_id@)].name,
            r matches Err(e) ==> e matches Error::VMNotFound(x) && x@ == vm_id@,
    {
        match self.db.get_vm(vm_id) {
            None => Err(Error::VMNotFound(strutil::s(vm_id))),
            Some(vm) => Ok(vm.name),
        }
    }

    /// Commit a stop: the VM is off. A missing VM leaves the catalog
    /// unchanged.
    pub fn stop_vm_finish(&mut self, vm_id: &str)
        requires
            old(self)@.wf(),
        ensures
            final(self)@.wf(),
            !old(self)@.has_vm_id(vm_id@) ==> final(self)@ == old(self)@,
            old(self)@.has_vm_id(vm_id@) ==> final(self)@ == with_vm(
                old(self)@,
                old(self)@.vm_idx(vm_id@),
                stopped_row(old(self)@.vms[old(self)@.vm_idx(vm_id@)]),
            ),
    {
        let ghost m = old(self)@;
        self.db.update_vm_state(vm_id, VMState::Off);
        proof {
            if m.has_vm_id(vm_id@) {
                let k = m.vm_idx(vm_id@);
                assert(self@.vms =~= m.vms.update(k, stopped_row(m.vms[k])));
            }
        }
    }

    /// Validate a warm-up: the VM must exist and sit in `Off`. Returns the
    /// hypervisor name to boot. The catalog is not changed.
    pub fn prepare_vm_begin(&self, vm_id: &str) -> (r: Result<String, Error>)
        requires
            self@.wf(),
        ensures
            r is Ok <==> self@.has_vm_id(vm_id@) && self@.vms[self@.vm_idx(vm_id@)].state
                == VMState::Off,
            r matches Ok(name) ==> name@ == self@.vms[self@.vm_idx(vm_id@)].name,
            !self@.has_vm_id(vm_id@) ==> (r matches Err(e) && e matches Error::VMNotFound(x) && x@
                == vm_id@),
            self@.has_vm_id(vm_id@) && self@.vms[self@.vm_idx(vm_id@)].state != VMState::Off ==> (
            r matches Err(e) && e matches Error::InvalidState { current, expected } && current@
                == state_label(self@.vms[self@.vm_idx(vm_id@)].state) && expected@ == "Off"@),
    {
        match self.db.get_vm(vm_id) {
            None => Err(Error::VMNotFound(strutil::s(vm_id))),
            Some(vm) => {
                if vm.state == VMState::Off {
                    Ok(vm.name)
                } else {
                    Err(
                        Error::InvalidState {
                            current: strutil::s(vm.state.as_str()),
                            expected: strutil::s("Off"),
                        },
                    )
                }
            },
        }
    }

    /// Commit the first boot of a warm-up: the VM is now running. A missing
    /// VM leaves the catalog unchanged.
    pub fn prepare_vm_started(&mut self, vm_id: &str)
        requires
            old(self)@.wf(),
        ensures
            final(self)@.wf(),
            !old(self)@.has_vm_id(vm_id@) ==> final(self)@ == old(self)@,
            old(self)@.has_vm_id(vm_id@) ==> final(self)@ == with_vm(
                old(self)@,
                old(self)@.vm_idx(vm_id@),
                running_row(old(self)@.vms[old(self)@.vm_idx(vm_id@)]),
            ),
    {
        let ghost m = old(self)@;
        self.db.update_vm_state(vm_id, VMState::Running);
        proof {
            if m.has_vm_id(vm_id@) {
                let k = m.vm_idx(vm_id@);
                assert(self@.vms =~= m.vms.update(k, running_row(m.vms[k])));
            }
        }
    }

    /// Commit the end of a warm-up: the clean checkpoint exists and the VM
    /// state is saved to disk, ready for fast resume. A missing VM leaves
    /// the catalog unchanged.
    pub fn prepare_vm_finish(&mut self, vm_id: &str)
        requires
            old(self)@.wf(),
        ensures
            final(self)@.wf(),
            !old(self)@.has_vm_id(vm_id@) ==> final(self)@ == old(self)@,
            old(self)@.has_vm_id(vm_id@) ==> final(self)@ == with_vm(
                old(self)@,
                old(self)@.vm_idx(vm_id@),
                prepared_row(old(self)@.vms[old(self)@.vm_idx(vm_id@)]),
            ),
    {
        let ghost m = old(self)@;
        self.db.update_vm_state(vm_id, VMState::Saved);
        proof {
            if m.has_vm_id(vm_id@) {
                let k = m.vm_idx(vm_id@);
                assert(self@.vms =~= m.vms.update(k, prepared_row(m.vms[k])));
            }
        }
    }

    /// Validate a delete: the VM must exist. Returns a copy of the row, so
    /// that the caller can tear down the hypervisor entities and the per-VM
    /// directory. The catalog is not changed.
    pub fn delete_vm_begin(&self, vm_id: &str) -> (r: Result<VM, Error>)
        requires
            self@.wf(),
        ensures
            r is Ok <==> self@.has_vm_id(vm_id@),
            r matches Ok(v) ==> v@ == self@.vms[self@.vm_idx(vm_id@)],
            r matches Err(e) ==> e matches Error::VMNotFound(x) && x@ == vm_id@,
    {
        match self.db.get_vm(vm_id) {
            None => Err(Error::VMNotFound(strutil::s(vm_id))),
            Some(vm) => Ok(vm),
        }
    }

    /// Commit a delete: the row leaves the catalog. Returns whether a row
    /// was removed.
    pub fn delete_vm_finish(&mut self, vm_id: &str) -> (r: bool)
        requires
            old(self)@.wf(),
        ensures
            final(self)@.wf(),
            r <==> old(self)@.has_vm_id(vm_id@),
            !r ==> final(self)@ == old(self)@,
            r ==> final(self)@.vms == old(self)@.vms.remove(old(self)@.vm_idx(vm_id@))
                && final(self)@.templates == old(self)@.templates
                && final(self)@.pools == old(self)@.pools,
    {
        self.db.delete_vm(vm_id)
    }

    // ===== Acquire / release =====

    /// Acquire a VM from the pool: atomically find a leasable VM and mark it
    /// leased by the given holder. Fails with `NoVMAvailable` exactly when
    /// the pool holds no acquirable VM. The caller resumes the returned VM
    /// and must release the lease if that resume fails.
    pub fn acquire_vm(&mut self, pool_id: &str, lease_id: &str) -> (r: Result<VM, Error>)
        requires
            old(self)@.wf(),
        ensures
            final(self)@.wf(),
            final(self)@.templates == old(self)@.templates,
            final(self)@.pools == old(self)@.pools,
            r is Ok <==> old(self)@.has_available_vm(pool_id@),
            r is Err ==> final(self)@ == old(self)@,
            r matches Err(e) ==> e is NoVMAvailable,
            r matches Ok(v) ==> v@.current_agent_id == Some(lease_id@) && !v@.is_available()
                && exists|k: int|
                0 <= k < old(self)@.vms.len() && (#[trigger] old(self)@.vms[k]).pool_id == Some(
                    pool_id@,
                ) && old(self)@.vms[k].is_available() && v@ == (VmModel {
                    current_agent_id: Some(lease_id@),
                    ..old(self)@.vms[k]
                }) && final(self)@.vms == old(self)@.vms.update(k, v@),
    {
        self.db.acquire_vm_in_pool(pool_id, lease_id)
    }

    /// Clear the lease on a VM, leaving everything else as it stands. This
    /// is the release step itself, and also what the acquirer must do when
    /// the resume after a successful lease fails. A missing VM leaves the
    /// catalog unchanged.
    pub fn release_lease(&mut self, vm_id: &str)
        requires
            old(self)@.wf(),
        ensures
            final(self)@.wf(),
            !old(self)@.has_vm_id(vm_id@) ==> final(self)@ == old(self)@,
            old(self)@.has_vm_id(vm_id@) ==> final(self)@ == with_vm(
                old(self)@,
                old(self)@.vm_idx(vm_id@),
                released_row(old(self)@.vms[old(self)@.vm_idx(vm_id@)]),
            ),
    {
        let ghost m = old(self)@;
        self.db.update_vm_agent(vm_id, None);
        proof {
            if m.has_vm_id(vm_id@) {
                let k = m.vm_idx(vm_id@);
                assert(self@.vms =~= m.vms.update(k, released_row(m.vms[k])));
            }
        }
    }

    // ===== Reconciliation =====

    /// Sync catalog state with the hypervisor's listing: the hypervisor wins
    /// on `state`, a VM it no longer knows goes to the error state with a
    /// message, and leases are never touched.
    pub fn reconcile(&mut self, listing: &Vec<HyperVInfo>)
        requires
            old(self)@.wf(),
        ensures
            final(self)@.wf(),
            final(self)@ == reconcile_model(old(self)@, listing.deep_view()),
    {
        self.db.reconcile_states(listing);
    }
}

} // verus!

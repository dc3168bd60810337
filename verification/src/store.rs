//! The persistent catalog of templates, pools and VMs.
//!
//! The catalog is the one mutable resource the orchestrator owns. Every
//! mutation goes through a method here, each of which keeps the catalog
//! well-formed: ids and names stay unique per table, and every pool keeps
//! referring to an existing template. Durability is the caller's business;
//! the contracts speak only of the catalog's mathematical value.

use vstd::prelude::*;

use crate::error::Error;
use crate::hyperv::{listing_find, HvInfoModel, HyperVInfo};
use crate::models::pool::{PoolModel, VMPool};
use crate::models::template::{Template, TemplateModel};
use crate::models::vm::{state_from_raw, VmModel, VM, VMState};
use crate::strutil;

verus! {

/// The mathematical value of the whole catalog.
pub struct StoreModel {
    pub templates: Seq<TemplateModel>,
    pub pools: Seq<PoolModel>,
    pub vms: Seq<VmModel>,
}

impl StoreModel {
    /// Ids and names are unique within the template table.
    pub open spec fn templates_wf(self) -> bool {
        forall|i: int, j: int|
            #![trigger self.templates[i], self.templates[j]]
            0 <= i < j < self.templates.len() ==> self.templates[i].id != self.templates[j].id
                && self.templates[i].name != self.templates[j].name
    }

    /// Ids and names are unique within the pool table.
    pub open spec fn pools_wf(self) -> bool {
        forall|i: int, j: int|
            #![trigger self.pools[i], self.pools[j]]
            0 <= i < j < self.pools.len() ==> self.pools[i].id != self.pools[j].id
                && self.pools[i].name != self.pools[j].name
    }

    /// Ids and names are unique within the VM table.
    pub open spec fn vms_wf(self) -> bool {
        forall|i: int, j: int|
            #![trigger self.vms[i], self.vms[j]]
            0 <= i < j < self.vms.len() ==> self.vms[i].id != self.vms[j].id
                && self.vms[i].name != self.vms[j].name
    }

    /// Every pool refers to a template that exists.
    pub open spec fn pools_fk(self) -> bool {
        forall|i: int|
            0 <= i < self.pools.len() ==> self.has_template_id(#[trigger] self.pools[i].template_id)
    }

    /// The catalog invariant: every constructor establishes it and every
    /// method preserves it.
    pub open spec fn wf(self) -> bool {
        self.templates_wf() && self.pools_wf() && self.vms_wf() && self.pools_fk()
    }

    pub open spec fn has_template_id(self, id: Seq<char>) -> bool {
        exists|k: int| 0 <= k < self.templates.len() && (#[trigger] self.templates[k]).id == id
    }

    pub open spec fn template_idx(self, id: Seq<char>) -> int {
        choose|k: int| 0 <= k < self.templates.len() && (#[trigger] self.templates[k]).id == id
    }

    pub open spec fn has_template_name(self, name: Seq<char>) -> bool {
        exists|k: int| 0 <= k < self.templates.len() && (#[trigger] self.templates[k]).name == name
    }

    pub open spec fn template_idx_by_name(self, name: Seq<char>) -> int {
        choose|k: int| 0 <= k < self.templates.len() && (#[trigger] self.templates[k]).name == name
    }

    pub open spec fn has_pool_id(self, id: Seq<char>) -> bool {
        exists|k: int| 0 <= k < self.pools.len() && (#[trigger] self.pools[k]).id == id
    }

    pub open spec fn pool_idx(self, id: Seq<char>) -> int {
        choose|k: int| 0 <= k < self.pools.len() && (#[trigger] self.pools[k]).id == id
    }

    pub open spec fn has_pool_name(self, name: Seq<char>) -> bool {
        exists|k: int| 0 <= k < self.pools.len() && (#[trigger] self.pools[k]).name == name
    }

    pub open spec fn pool_idx_by_name(self, name: Seq<char>) -> int {
        choose|k: int| 0 <= k < self.pools.len() && (#[trigger] self.pools[k]).name == name
    }

    pub open spec fn has_vm_id(self, id: Seq<char>) -> bool {
        exists|k: int| 0 <= k < self.vms.len() && (#[trigger] self.vms[k]).id == id
    }

    pub open spec fn vm_idx(self, id: Seq<char>) -> int {
        choose|k: int| 0 <= k < self.vms.len() && (#[trigger] self.vms[k]).id == id
    }

    pub open spec fn has_vm_name(self, name: Seq<char>) -> bool {
        exists|k: int| 0 <= k < self.vms.len() && (#[trigger] self.vms[k]).name == name
    }

    pub open spec fn vm_idx_by_name(self, name: Seq<char>) -> int {
        choose|k: int| 0 <= k < self.vms.len() && (#[trigger] self.vms[k]).name == name
    }

    /// Whether any pool refers to the given template.
    pub open spec fn template_referenced(self, id: Seq<char>) -> bool {
        exists|k: int| 0 <= k < self.pools.len() && (#[trigger] self.pools[k]).template_id == id
    }

    /// Whether any VM in the given pool is acquirable.
    pub open spec fn has_available_vm(self, pool_id: Seq<char>) -> bool {
        exists|k: int|
            0 <= k < self.vms.len() && (#[trigger] self.vms[k]).pool_id == Some(pool_id)
                && self.vms[k].is_available()
    }
}

/// The VMs of `s` that belong to the given pool, in catalog order.
pub open spec fn vms_of_pool(s: Seq<VmModel>, pool_id: Seq<char>) -> Seq<VmModel>
    decreases s.len(),
{
    if s.len() == 0 {
        Seq::empty()
    } else {
        let rest = vms_of_pool(s.drop_last(), pool_id);
        if s.last().pool_id == Some(pool_id) {
            rest.push(s.last())
        } else {
            rest
        }
    }
}

/// Pool membership distributes over concatenation of catalogs.
pub proof fn lemma_vms_of_pool_concat(s: Seq<VmModel>, t: Seq<VmModel>, pool_id: Seq<char>)
    ensures
        vms_of_pool(s + t, pool_id) == vms_of_pool(s, pool_id) + vms_of_pool(t, pool_id),
    decreases t.len(),
{
    if t.len() == 0 {
        assert(s + t =~= s);
        assert(vms_of_pool(t, pool_id) =~= Seq::<VmModel>::empty());
        assert(vms_of_pool(s, pool_id) + vms_of_pool(t, pool_id) =~= vms_of_pool(s, pool_id));
    } else {
        lemma_vms_of_pool_concat(s, t.drop_last(), pool_id);
        assert((s + t).drop_last() =~= s + t.drop_last());
        assert((s + t).last() == t.last());
        if t.last().pool_id == Some(pool_id) {
            assert(vms_of_pool(s, pool_id) + vms_of_pool(t, pool_id) =~= (vms_of_pool(s, pool_id)
                + vms_of_pool(t.drop_last(), pool_id)).push(t.last()));
        }
    }
}

/// A batch whose rows all belong to the pool is its own pool membership.
pub proof fn lemma_vms_of_pool_all(t: Seq<VmModel>, pool_id: Seq<char>)
    requires
        forall|i: int| 0 <= i < t.len() ==> (#[trigger] t[i]).pool_id == Some(pool_id),
    ensures
        vms_of_pool(t, pool_id) == t,
    decreases t.len(),
{
    if t.len() == 0 {
        assert(vms_of_pool(t, pool_id) =~= t);
    } else {
        lemma_vms_of_pool_all(t.drop_last(), pool_id);
        assert(t.drop_last().push(t.last()) =~= t);
    }
}

/// How many VMs of `s` sit in the given state.
pub open spec fn count_in_state(s: Seq<VmModel>, st: VMState) -> nat
    decreases s.len(),
{
    if s.len() == 0 {
        0
    } else {
        count_in_state(s.drop_last(), st) + if s.last().state == st {
            1nat
        } else {
            0nat
        }
    }
}

/// What the drift-healing pass records for a VM that the hypervisor no
/// longer knows.
pub open spec fn missing_vm_message() -> Seq<char> {
    "not present in hypervisor"@
}

/// One VM row after a drift-healing pass against a hypervisor listing:
/// the hypervisor's state wins, and a VM absent from the listing is put
/// into the error state with a message. Leases are never touched.
pub open spec fn reconciled_vm(v: VmModel, l: Seq<HvInfoModel>) -> VmModel {
    match listing_find(l, v.name) {
        Some(raw) => if state_from_raw(raw) != v.state {
            VmModel { state: state_from_raw(raw), ..v }
        } else {
            v
        },
        None => VmModel {
            state: VMState::Error,
            error_message: Some(missing_vm_message()),
            ..v
        },
    }
}

/// The whole catalog after a drift-healing pass: every VM row reconciled,
/// templates and pools untouched.
pub open spec fn reconcile_model(m: StoreModel, l: Seq<HvInfoModel>) -> StoreModel {
    StoreModel { vms: Seq::new(m.vms.len(), |i: int| reconciled_vm(m.vms[i], l)), ..m }
}

/// Drift healing is idempotent: running the pass twice against the same
/// listing leaves exactly what one pass leaves.
pub proof fn lemma_reconcile_idempotent(m: StoreModel, l: Seq<HvInfoModel>)
    ensures
        reconcile_model(reconcile_model(m, l), l) == reconcile_model(m, l),
{
    let r1 = reconcile_model(m, l);
    assert forall|i: int| 0 <= i < r1.vms.len() implies reconciled_vm(
        #[trigger] r1.vms[i],
        l,
    ) == r1.vms[i] by {
        let v = m.vms[i];
        assert(r1.vms[i] == reconciled_vm(v, l));
        let w = reconciled_vm(v, l);
        assert(w.name == v.name);
        match listing_find(l, v.name) {
            Some(raw) => {
                assert(w.state == state_from_raw(raw));
                assert(reconciled_vm(w, l) == w);
            },
            None => {
                assert(w.state == VMState::Error && w.error_message == Some(
                    missing_vm_message(),
                ));
                assert(reconciled_vm(w, l) == w);
            },
        }
    }
    assert(reconcile_model(r1, l).vms =~= r1.vms);
}

/// The durable catalog. Mutations are serialized through `&mut` access;
/// readers get clones of the rows.
pub struct Database {
    templates: Vec<Template>,
    pools: Vec<VMPool>,
    vms: Vec<VM>,
}

impl View for Database {
    type V = StoreModel;

    closed spec fn view(&self) -> StoreModel {
        StoreModel {
            templates: self.templates.deep_view(),
            pools: self.pools.deep_view(),
            vms: self.vms.deep_view(),
        }
    }
}

impl Database {
    /// An empty catalog.
    pub fn new() -> (r: Self)
        ensures
            r@.wf(),
            r@.templates.len() == 0,
            r@.pools.len() == 0,
            r@.vms.len() == 0,
    {
        let r = Database { templates: Vec::new(), pools: Vec::new(), vms: Vec::new() };
        proof {
            assert(r@.templates =~= Seq::<TemplateModel>::empty());
            assert(r@.pools =~= Seq::<PoolModel>::empty());
            assert(r@.vms =~= Seq::<VmModel>::empty());
        }
        r
    }

    /// An empty catalog held in memory.
    pub fn in_memory() -> (r: Self)
        ensures
            r@.wf(),
            r@.templates.len() == 0,
            r@.pools.len() == 0,
            r@.vms.len() == 0,
    {
        Database::new()
    }

    // ===== Templates =====

    /// Insert a template. Fails with `Conflict` exactly when the id or the
    /// name is already taken.
    pub fn insert_template(&mut self, t: &Template) -> (r: Result<(), Error>)
        requires
            old(self)@.wf(),
        ensures
            final(self)@.wf(),
            r is Ok <==> !old(self)@.has_template_id(t@.id) && !old(self)@.has_template_name(
                t@.name,
            ),
            r is Ok ==> final(self)@.templates == old(self)@.templates.push(t@)
                && final(self)@.pools == old(self)@.pools
                && final(self)@.vms == old(self)@.vms,
            r is Err ==> final(self)@ == old(self)@,
            r matches Err(e) ==> e is Conflict,
    {
        let ghost m = old(self)@;
        let mut i: usize = 0;
        while i < self.templates.len()
            invariant
                self@ == m,
                m == old(self)@,
                m.wf(),
                i <= m.templates.len(),
                forall|k: int|
                    0 <= k < i ==> (#[trigger] m.templates[k]).id != t@.id && m.templates[k].name
                        != t@.name,
            decreases m.templates.len() - i,
        {
            if strutil::str_eq(strutil::as_str(&self.templates[i].id), strutil::as_str(&t.id)) {
                proof {
                    assert(m.templates[i as int].id == t@.id);
                }
                return Err(Error::Conflict(strutil::s("template id already exists")));
            }
            if strutil::str_eq(strutil::as_str(&self.templates[i].name), strutil::as_str(&t.name)) {
                proof {
                    assert(m.templates[i as int].name == t@.name);
                }
                return Err(Error::Conflict(strutil::s("template name already exists")));
            }
            i = i + 1;
        }
        self.templates.push(t.clone());
        proof {
            assert(self@.templates =~= m.templates.push(t@));
            assert forall|a: int|
                0 <= a < self@.pools.len() implies self@.has_template_id(
                #[trigger] self@.pools[a].template_id,
            ) by {
                assert(m.has_template_id(m.pools[a].template_id));
                let w = choose|k: int|
                    0 <= k < m.templates.len() && (#[trigger] m.templates[k]).id
                        == m.pools[a].template_id;
                assert(self@.templates[w].id == self@.pools[a].template_id);
            }
        }
        Ok(())
    }

    /// The template with the given id, if any.
    pub fn get_template(&self, id: &str) -> (r: Option<Template>)
        ensures
            r is Some <==> self@.has_template_id(id@),
            r matches Some(t) ==> exists|k: int|
                0 <= k < self@.templates.len() && (#[trigger] self@.templates[k]) == t@ && t@.id
                    == id@,
    {
        let mut i: usize = 0;
        while i < self.templates.len()
            invariant
                i <= self@.templates.len(),
                forall|k: int| 0 <= k < i ==> (#[trigger] self@.templates[k]).id != id@,
            decreases self@.templates.len() - i,
        {
            if strutil::str_eq(strutil::as_str(&self.templates[i].id), id) {
                let t = self.templates[i].clone();
                proof {
                    assert(self@.templates[i as int] == t@ && t@.id == id@);
                }
                return Some(t);
            }
            i = i + 1;
        }
        None
    }

    /// The template with the given name, if any.
    pub fn get_template_by_name(&self, name: &str) -> (r: Option<Template>)
        ensures
            r is Some <==> self@.has_template_name(name@),
            r matches Some(t) ==> exists|k: int|
                0 <= k < self@.templates.len() && (#[trigger] self@.templates[k]) == t@ && t@.name
                    == name@,
    {
        let mut i: usize = 0;
        while i < self.templates.len()
            invariant
                i <= self@.templates.len(),
                forall|k: int| 0 <= k < i ==> (#[trigger] self@.templates[k]).name != name@,
            decreases self@.templates.len() - i,
        {
            if strutil::str_eq(strutil::as_str(&self.templates[i].name), name) {
                let t = self.templates[i].clone();
                proof {
                    assert(self@.templates[i as int] == t@ && t@.name == name@);
                }
                return Some(t);
            }
            i = i + 1;
        }
        None
    }

    /// All templates, in catalog order.
    pub fn list_templates(&self) -> (r: Vec<Template>)
        ensures
            r.deep_view() == self@.templates,
    {
        let mut r: Vec<Template> = Vec::new();
        let mut i: usize = 0;
        proof {
            assert(r.deep_view() =~= self@.templates.subrange(0, 0));
        }
        while i < self.templates.len()
            invariant
                i <= self@.templates.len(),
                r.deep_view() == self@.templates.subrange(0, i as int),
            decreases self@.templates.len() - i,
        {
            let ghost prev = r.deep_view();
            r.push(self.templates[i].clone());
            proof {
                assert(r.deep_view() =~= prev.push(self@.templates[i as int]));
                assert(r.deep_view() =~= self@.templates.subrange(0, i as int + 1));
            }
            i = i + 1;
        }
        proof {
            assert(r.deep_view() =~= self@.templates);
        }
        r
    }

    /// Delete the template with the given id. Returns `Ok(false)` when no
    /// such template exists; fails with `Conflict` exactly when a pool still
    /// references the template.
    pub fn delete_template(&mut self, id: &str) -> (r: Result<bool, Error>)
        requires
            old(self)@.wf(),
        ensures
            final(self)@.wf(),
            r == Ok::<bool, Error>(false) <==> !old(self)@.has_template_id(id@),
            r is Err <==> old(self)@.has_template_id(id@) && old(self)@.template_referenced(id@),
            r matches Err(e) ==> e is Conflict && final(self)@ == old(self)@,
            r == Ok::<bool, Error>(false) ==> final(self)@ == old(self)@,
            r == Ok::<bool, Error>(true) ==> final(self)@.templates == old(self)@.templates.remove(
                old(self)@.template_idx(id@),
            ) && final(self)@.pools == old(self)@.pools && final(self)@.vms == old(self)@.vms,
    {
        let ghost m = old(self)@;
        let mut i: usize = 0;
        while i < self.templates.len()
            invariant
                self@ == m,
                m == old(self)@,
                m.wf(),
                i <= m.templates.len(),
                forall|k: int| 0 <= k < i ==> (#[trigger] m.templates[k]).id != id@,
            decreases m.templates.len() - i,
        {
            if strutil::str_eq(strutil::as_str(&self.templates[i].id), id) {
                proof {
                    assert(m.templates[i as int].id == id@);
                }
                // A template still referenced by a pool must not be deleted.
                let mut p: usize = 0;
                while p < self.pools.len()
                    invariant
                        self@ == m,
                        m == old(self)@,
                        m.wf(),
                        i < m.templates.len(),
                        m.templates[i as int].id == id@,
                        p <= m.pools.len(),
                        forall|k: int| 0 <= k < p ==> (#[trigger] m.pools[k]).template_id != id@,
                    decreases m.pools.len() - p,
                {
                    if strutil::str_eq(strutil::as_str(&self.pools[p].template_id), id) {
                        proof {
                            assert(m.pools[p as int].template_id == id@);
                            assert(m.has_template_id(id@));
                        }
                        return Err(Error::Conflict(strutil::s(
                            "template is referenced by a pool",
                        )));
                    }
                    p = p + 1;
                }
                proof {
                    assert(m.has_template_id(id@));
                    assert(m.template_idx(id@) == i) by {
                        let w = m.template_idx(id@);
                        assert(0 <= w < m.templates.len() && m.templates[w].id == id@);
                    }
                }
                self.templates.remove(i);
                proof {
                    assert(self@.templates =~= m.templates.remove(i as int));
                    assert forall|a: int|
                        0 <= a < self@.pools.len() implies self@.has_template_id(
                        #[trigger] self@.pools[a].template_id,
                    ) by {
                        assert(m.has_template_id(m.pools[a].template_id));
                        let w = choose|k: int|
                            0 <= k < m.templates.len() && (#[trigger] m.templates[k]).id
                                == m.pools[a].template_id;
                        assert(m.pools[a].template_id != id@);
                        assert(w != i);
                        if w < i {
                            assert(self@.templates[w].id == self@.pools[a].template_id);
                        } else {
                            assert(self@.templates[w - 1].id == self@.pools[a].template_id);
                        }
                    }
                }
                return Ok(true);
            }
            i = i + 1;
        }
        Ok(false)
    }

    // ===== Pools =====

    /// Insert a pool. Fails with `Conflict` exactly when the id or the name
    /// is already taken, or when the referenced template does not exist.
    pub fn insert_pool(&mut self, p: &VMPool) -> (r: Result<(), Error>)
        requires
            old(self)@.wf(),
        ensures
            final(self)@.wf(),
            r is Ok <==> !old(self)@.has_pool_id(p@.id) && !old(self)@.has_pool_name(p@.name)
                && old(self)@.has_template_id(p@.template_id),
            r is Ok ==> final(self)@.pools == old(self)@.pools.push(p@)
                && final(self)@.templates == old(self)@.templates
                && final(self)@.vms == old(self)@.vms,
            r is Err ==> final(self)@ == old(self)@,
            r matches Err(e) ==> e is Conflict,
    {
        let ghost m = old(self)@;
        match self.get_template(strutil::as_str(&p.template_id)) {
            Some(_) => {},
            None => {
                return Err(Error::Conflict(strutil::s("pool references a missing template")));
            },
        }
        let mut i: usize = 0;
        while i < self.pools.len()
            invariant
                self@ == m,
                m == old(self)@,
                m.wf(),
                i <= m.pools.len(),
                forall|k: int|
                    0 <= k < i ==> (#[trigger] m.pools[k]).id != p@.id && m.pools[k].name
                        != p@.name,
            decreases m.pools.len() - i,
        {
            if strutil::str_eq(strutil::as_str(&self.pools[i].id), strutil::as_str(&p.id)) {
                proof {
                    assert(m.pools[i as int].id == p@.id);
                }
                return Err(Error::Conflict(strutil::s("pool id already exists")));
            }
            if strutil::str_eq(strutil::as_str(&self.pools[i].name), strutil::as_str(&p.name)) {
                proof {
                    assert(m.pools[i as int].name == p@.name);
                }
                return Err(Error::Conflict(strutil::s("pool name already exists")));
            }
            i = i + 1;
        }
        self.pools.push(p.clone());
        proof {
            assert(self@.pools =~= m.pools.push(p@));
            assert forall|a: int|
                0 <= a < self@.pools.len() implies self@.has_template_id(
                #[trigger] self@.pools[a].template_id,
            ) by {
                if a < m.pools.len() {
                    assert(m.has_template_id(m.pools[a].template_id));
                    let w = choose|k: int|
                        0 <= k < m.templates.len() && (#[trigger] m.templates[k]).id
                            == m.pools[a].template_id;
                    assert(self@.templates[w].id == self@.pools[a].template_id);
                } else {
                    assert(self@.pools[a] == p@);
                    let w = choose|k: int|
                        0 <= k < m.templates.len() && (#[trigger] m.templates[k]).id
                            == p@.template_id;
                    assert(self@.templates[w].id == self@.pools[a].template_id);
                }
            }
        }
        Ok(())
    }

    /// The pool with the given id, if any.
    pub fn get_pool(&self, id: &str) -> (r: Option<VMPool>)
        ensures
            r is Some <==> self@.has_pool_id(id@),
            r matches Some(p) ==> exists|k: int|
                0 <= k < self@.pools.len() && (#[trigger] self@.pools[k]) == p@ && p@.id == id@,
    {
        let mut i: usize = 0;
        while i < self.pools.len()
            invariant
                i <= self@.pools.len(),
                forall|k: int| 0 <= k < i ==> (#[trigger] self@.pools[k]).id != id@,
            decreases self@.pools.len() - i,
        {
            if strutil::str_eq(strutil::as_str(&self.pools[i].id), id) {
                let p = self.pools[i].clone();
                proof {
                    assert(self@.pools[i as int] == p@ && p@.id == id@);
                }
                return Some(p);
            }
            i = i + 1;
        }
        None
    }

    /// The pool with the given name, if any.
    pub fn get_pool_by_name(&self, name: &str) -> (r: Option<VMPool>)
        ensures
            r is Some <==> self@.has_pool_name(name@),
            r matches Some(p) ==> exists|k: int|
                0 <= k < self@.pools.len() && (#[trigger] self@.pools[k]) == p@ && p@.name == name@,
    {
        let mut i: usize = 0;
        while i < self.pools.len()
            invariant
                i <= self@.pools.len(),
                forall|k: int| 0 <= k < i ==> (#[trigger] self@.pools[k]).name != name@,
            decreases self@.pools.len() - i,
        {
            if strutil::str_eq(strutil::as_str(&self.pools[i].name), name) {
                let p = self.pools[i].clone();
                proof {
                    assert(self@.pools[i as int] == p@ && p@.name == name@);
                }
                return Some(p);
            }
            i = i + 1;
        }
        None
    }

    /// All pools, in catalog order.
    pub fn list_pools(&self) -> (r: Vec<VMPool>)
        ensures
            r.deep_view() == self@.pools,
    {
        let mut r: Vec<VMPool> = Vec::new();
        let mut i: usize = 0;
        proof {
            assert(r.deep_view() =~= self@.pools.subrange(0, 0));
        }
        while i < self.pools.len()
            invariant
                i <= self@.pools.len(),
                r.deep_view() == self@.pools.subrange(0, i as int),
            decreases self@.pools.len() - i,
        {
            let ghost prev = r.deep_view();
            r.push(self.pools[i].clone());
            proof {
                assert(r.deep_view() =~= prev.push(self@.pools[i as int]));
                assert(r.deep_view() =~= self@.pools.subrange(0, i as int + 1));
            }
            i = i + 1;
        }
        proof {
            assert(r.deep_view() =~= self@.pools);
        }
        r
    }

    /// Delete the pool with the given id. Returns whether a row was removed.
    /// VMs keep their `pool_id` even when the pool goes away.
    pub fn delete_pool(&mut self, id: &str) -> (r: bool)
        requires
            old(self)@.wf(),
        ensures
            final(self)@.wf(),
            r <==> old(self)@.has_pool_id(id@),
            !r ==> final(self)@ == old(self)@,
            r ==> final(self)@.pools == old(self)@.pools.remove(old(self)@.pool_idx(id@))
                && final(self)@.templates == old(self)@.templates
                && final(self)@.vms == old(self)@.vms,
    {
        let ghost m = old(self)@;
        let mut i: usize = 0;
        while i < self.pools.len()
            invariant
                self@ == m,
                m == old(self)@,
                m.wf(),
                i <= m.pools.len(),
                forall|k: int| 0 <= k < i ==> (#[trigger] m.pools[k]).id != id@,
            decreases m.pools.len() - i,
        {
            if strutil::str_eq(strutil::as_str(&self.pools[i].id), id) {
                proof {
                    assert(m.pools[i as int].id == id@);
                    assert(m.has_pool_id(id@));
                    assert(m.pool_idx(id@) == i) by {
                        let w = m.pool_idx(id@);
                        assert(0 <= w < m.pools.len() && m.pools[w].id == id@);
                    }
                }
                self.pools.remove(i);
                proof {
                    assert(self@.pools =~= m.pools.remove(i as int));
                    assert forall|a: int|
                        0 <= a < self@.pools.len() implies self@.has_template_id(
                        #[trigger] self@.pools[a].template_id,
                    ) by {
                        let orig = if a < i { a } else { a + 1 };
                        assert(self@.pools[a] == m.pools[orig]);
                        assert(m.has_template_id(m.pools[orig].template_id));
                        let w = choose|k: int|
                            0 <= k < m.templates.len() && (#[trigger] m.templates[k]).id
                                == m.pools[orig].template_id;
                        assert(self@.templates[w].id == self@.pools[a].template_id);
                    }
                }
                return true;
            }
            i = i + 1;
        }
        false
    }

    // ===== VMs =====

    /// A VM row update that keeps id and name keeps the catalog well-formed.
    proof fn lemma_vm_update_preserves_wf(pre: StoreModel, post: StoreModel, k: int, v: VmModel)
        requires
            pre.wf(),
            0 <= k < pre.vms.len(),
            v.id == pre.vms[k].id,
            v.name == pre.vms[k].name,
            post.templates == pre.templates,
            post.pools == pre.pools,
            post.vms == pre.vms.update(k, v),
        ensures
            post.wf(),
    {
        assert forall|i: int, j: int|
            #![trigger post.vms[i], post.vms[j]]
            0 <= i < j < post.vms.len() implies post.vms[i].id != post.vms[j].id
            && post.vms[i].name != post.vms[j].name by {
            assert(pre.vms[i].id != pre.vms[j].id && pre.vms[i].name != pre.vms[j].name);
        }
        assert forall|a: int|
            0 <= a < post.pools.len() implies post.has_template_id(
            #[trigger] post.pools[a].template_id,
        ) by {
            assert(pre.has_template_id(pre.pools[a].template_id));
            let w = choose|x: int|
                0 <= x < pre.templates.len() && (#[trigger] pre.templates[x]).id
                    == pre.pools[a].template_id;
            assert(post.templates[w].id == post.pools[a].template_id);
        }
    }

    /// Removing a VM row keeps the catalog well-formed.
    proof fn lemma_vm_remove_preserves_wf(pre: StoreModel, post: StoreModel, k: int)
        requires
            pre.wf(),
            0 <= k < pre.vms.len(),
            post.templates == pre.templates,
            post.pools == pre.pools,
            post.vms == pre.vms.remove(k),
        ensures
            post.wf(),
    {
        assert forall|i: int, j: int|
            #![trigger post.vms[i], post.vms[j]]
            0 <= i < j < post.vms.len() implies post.vms[i].id != post.vms[j].id
            && post.vms[i].name != post.vms[j].name by {
            let oi = if i < k {
                i
            } else {
                i + 1
            };
            let oj = if j < k {
                j
            } else {
                j + 1
            };
            assert(post.vms[i] == pre.vms[oi]);
            assert(post.vms[j] == pre.vms[oj]);
            assert(pre.vms[oi].id != pre.vms[oj].id && pre.vms[oi].name != pre.vms[oj].name);
        }
        assert forall|a: int|
            0 <= a < post.pools.len() implies post.has_template_id(
            #[trigger] post.pools[a].template_id,
        ) by {
            assert(pre.has_template_id(pre.pools[a].template_id));
            let w = choose|x: int|
                0 <= x < pre.templates.len() && (#[trigger] pre.templates[x]).id
                    == pre.pools[a].template_id;
            assert(post.templates[w].id == post.pools[a].template_id);
        }
    }

    /// Insert a VM row. Fails with `Conflict` exactly when the id or the name
    /// is already taken, or when a referenced template or pool is missing.
    pub fn insert_vm(&mut self, vm: &VM) -> (r: Result<(), Error>)
        requires
            old(self)@.wf(),
        ensures
            final(self)@.wf(),
            r is Ok <==> !old(self)@.has_vm_id(vm@.id) && !old(self)@.has_vm_name(vm@.name) && (
            vm@.template_id matches Some(tid) ==> old(self)@.has_template_id(tid)) && (
            vm@.pool_id matches Some(pid) ==> old(self)@.has_pool_id(pid)),
            r is Ok ==> final(self)@.vms == old(self)@.vms.push(vm@)
                && final(self)@.templates == old(self)@.templates
                && final(self)@.pools == old(self)@.pools,
            r is Err ==> final(self)@ == old(self)@,
            r matches Err(e) ==> e is Conflict,
    {
        let ghost m = old(self)@;
        match &vm.template_id {
            Some(tid) => {
                if self.get_template(strutil::as_str(tid)).is_none() {
                    return Err(Error::Conflict(strutil::s("vm references a missing template")));
                }
            },
            None => {},
        }
        match &vm.pool_id {
            Some(pid) => {
                if self.get_pool(strutil::as_str(pid)).is_none() {
                    return Err(Error::Conflict(strutil::s("vm references a missing pool")));
                }
            },
            None => {},
        }
        let mut i: usize = 0;
        while i < self.vms.len()
            invariant
                self@ == m,
                m == old(self)@,
                m.wf(),
                i <= m.vms.len(),
                forall|k: int|
                    0 <= k < i ==> (#[trigger] m.vms[k]).id != vm@.id && m.vms[k].name != vm@.name,
            decreases m.vms.len() - i,
        {
            if strutil::str_eq(strutil::as_str(&self.vms[i].id), strutil::as_str(&vm.id)) {
                proof {
                    assert(m.vms[i as int].id == vm@.id);
                }
                return Err(Error::Conflict(strutil::s("vm id already exists")));
            }
            if strutil::str_eq(strutil::as_str(&self.vms[i].name), strutil::as_str(&vm.name)) {
                proof {
                    assert(m.vms[i as int].name == vm@.name);
                }
                return Err(Error::Conflict(strutil::s("vm name already exists")));
            }
            i = i + 1;
        }
        self.vms.push(vm.clone());
        proof {
            assert(self@.vms =~= m.vms.push(vm@));
            assert forall|a: int|
                0 <= a < self@.pools.len() implies self@.has_template_id(
                #[trigger] self@.pools[a].template_id,
            ) by {
                assert(m.has_template_id(m.pools[a].template_id));
                let w = choose|x: int|
                    0 <= x < m.templates.len() && (#[trigger] m.templates[x]).id
                        == m.pools[a].template_id;
                assert(self@.templates[w].id == self@.pools[a].template_id);
            }
        }
        Ok(())
    }

    /// The index of the VM with the given id, if any.
    fn find_vm_index(&self, id: &str) -> (r: Option<usize>)
        requires
            self@.wf(),
        ensures
            r is Some <==> self@.has_vm_id(id@),
            r matches Some(i) ==> 0 <= i < self@.vms.len() && self@.vms[i as int].id == id@
                && self@.vm_idx(id@) == i,
    {
        let mut i: usize = 0;
        while i < self.vms.len()
            invariant
                self@.wf(),
                i <= self@.vms.len(),
                forall|k: int| 0 <= k < i ==> (#[trigger] self@.vms[k]).id != id@,
            decreases self@.vms.len() - i,
        {
            if strutil::str_eq(strutil::as_str(&self.vms[i].id), id) {
                proof {
                    assert(self@.vms[i as int].id == id@);
                    assert(self@.vm_idx(id@) == i) by {
                        let w = self@.vm_idx(id@);
                        assert(0 <= w < self@.vms.len() && self@.vms[w].id == id@);
                    }
                }
                return Some(i);
            }
            i = i + 1;
        }
        None
    }

    /// The VM with the given id, if any.
    pub fn get_vm(&self, id: &str) -> (r: Option<VM>)
        requires
            self@.wf(),
        ensures
            r is Some <==> self@.has_vm_id(id@),
            r matches Some(v) ==> v@ == self@.vms[self@.vm_idx(id@)] && v@.id == id@,
    {
        match self.find_vm_index(id) {
            Some(i) => Some(self.vms[i].clone()),
            None => None,
        }
    }

    /// The VM with the given name, if any.
    pub fn get_vm_by_name(&self, name: &str) -> (r: Option<VM>)
        requires
            self@.wf(),
        ensures
            r is Some <==> self@.has_vm_name(name@),
            r matches Some(v) ==> v@ == self@.vms[self@.vm_idx_by_name(name@)] && v@.name == name@,
    {
        let mut i: usize = 0;
        while i < self.vms.len()
            invariant
                self@.wf(),
                i <= self@.vms.len(),
                forall|k: int| 0 <= k < i ==> (#[trigger] self@.vms[k]).name != name@,
            decreases self@.vms.len() - i,
        {
            if strutil::str_eq(strutil::as_str(&self.vms[i].name), name) {
                proof {
                    assert(self@.vms[i as int].name == name@);
                    assert(self@.vm_idx_by_name(name@) == i) by {
                        let w = self@.vm_idx_by_name(name@);
                        assert(0 <= w < self@.vms.len() && self@.vms[w].name == name@);
                    }
                }
                return Some(self.vms[i].clone());
            }
            i = i + 1;
        }
        None
    }

    /// All VMs, in catalog order.
    pub fn list_vms(&self) -> (r: Vec<VM>)
        ensures
            r.deep_view() == self@.vms,
    {
        let mut r: Vec<VM> = Vec::new();
        let mut i: usize = 0;
        proof {
            assert(r.deep_view() =~= self@.vms.subrange(0, 0));
        }
        while i < self.vms.len()
            invariant
                i <= self@.vms.len(),
                r.deep_view() == self@.vms.subrange(0, i as int),
            decreases self@.vms.len() - i,
        {
            let ghost prev = r.deep_view();
            r.push(self.vms[i].clone());
            proof {
                assert(r.deep_view() =~= prev.push(self@.vms[i as int]));
                assert(r.deep_view() =~= self@.vms.subrange(0, i as int + 1));
            }
            i = i + 1;
        }
        proof {
            assert(r.deep_view() =~= self@.vms);
        }
        r
    }

    /// The VMs of the given pool, in catalog order.
    pub fn list_vms_by_pool(&self, pool_id: &str) -> (r: Vec<VM>)
        ensures
            r.deep_view() == vms_of_pool(self@.vms, pool_id@),
    {
        let mut r: Vec<VM> = Vec::new();
        let mut i: usize = 0;
        proof {
            assert(self@.vms.subrange(0, 0) =~= Seq::<VmModel>::empty());
            assert(r.deep_view() =~= vms_of_pool(self@.vms.subrange(0, 0), pool_id@));
        }
        while i < self.vms.len()
            invariant
                i <= self@.vms.len(),
                r.deep_view() == vms_of_pool(self@.vms.subrange(0, i as int), pool_id@),
            decreases self@.vms.len() - i,
        {
            let ghost prev = r.deep_view();
            proof {
                assert(self@.vms.subrange(0, i as int + 1).drop_last() =~= self@.vms.subrange(
                    0,
                    i as int,
                ));
                assert(self@.vms.subrange(0, i as int + 1).last() == self@.vms[i as int]);
            }
            if strutil::opt_str_is(&self.vms[i].pool_id, pool_id) {
                r.push(self.vms[i].clone());
                proof {
                    assert(r.deep_view() =~= prev.push(self@.vms[i as int]));
                }
            }
            i = i + 1;
        }
        proof {
            assert(self@.vms.subrange(0, self@.vms.len() as int) =~= self@.vms);
        }
        r
    }

    /// A leasable VM of the pool, if any: saved, with no lease holder.
    /// The catalog is not changed.
    pub fn find_available_vm_in_pool(&self, pool_id: &str) -> (r: Option<VM>)
        ensures
            r is Some <==> self@.has_available_vm(pool_id@),
            r matches Some(v) ==> exists|k: int|
                0 <= k < self@.vms.len() && (#[trigger] self@.vms[k]) == v@ && v@.pool_id == Some(
                    pool_id@,
                ) && v@.is_available(),
    {
        let mut i: usize = 0;
        while i < self.vms.len()
            invariant
                i <= self@.vms.len(),
                forall|k: int|
                    0 <= k < i ==> !((#[trigger] self@.vms[k]).pool_id == Some(pool_id@)
                        && self@.vms[k].is_available()),
            decreases self@.vms.len() - i,
        {
            if strutil::opt_str_is(&self.vms[i].pool_id, pool_id) && self.vms[i].state
                == VMState::Saved && self.vms[i].current_agent_id.is_none() {
                let v = self.vms[i].clone();
                proof {
                    assert(self@.vms[i as int] == v@ && v@.pool_id == Some(pool_id@)
                        && v@.is_available());
                }
                return Some(v);
            }
            i = i + 1;
        }
        None
    }

    /// Atomically find a leasable VM in the pool and mark it leased: the one
    /// step that keeps two acquirers from receiving the same VM. Fails with
    /// `NoVMAvailable` exactly when no VM in the pool is acquirable.
    pub fn acquire_vm_in_pool(&mut self, pool_id: &str, lease_id: &str) -> (r: Result<VM, Error>)
        requires
            old(self)@.wf(),
        ensures
            final(self)@.wf(),
            final(self)@.templates == old(self)@.templates,
            final(self)@.pools == old(self)@.pools,
            r is Ok <==> old(self)@.has_available_vm(pool_id@),
            r is Err ==> final(self)@ == old(self)@,
            r matches Err(e) ==> e is NoVMAvailable,
            r matches Ok(v) ==> v@.current_agent_id == Some(lease_id@) && !v@.is_available()
                && exists|k: int|
                0 <= k < old(self)@.vms.len() && (#[trigger] old(self)@.vms[k]).pool_id == Some(
                    pool_id@,
                ) && old(self)@.vms[k].is_available() && v@ == (VmModel {
                    current_agent_id: Some(lease_id@),
                    ..old(self)@.vms[k]
                }) && final(self)@.vms == old(self)@.vms.update(k, v@),
    {
        let ghost m = old(self)@;
        let mut i: usize = 0;
        while i < self.vms.len()
            invariant
                self@ == m,
                m == old(self)@,
                m.wf(),
                i <= m.vms.len(),
                forall|k: int|
                    0 <= k < i ==> !((#[trigger] m.vms[k]).pool_id == Some(pool_id@)
                        && m.vms[k].is_available()),
            decreases m.vms.len() - i,
        {
            if strutil::opt_str_is(&self.vms[i].pool_id, pool_id) && self.vms[i].state
                == VMState::Saved && self.vms[i].current_agent_id.is_none() {
                proof {
                    assert(m.vms[i as int].pool_id == Some(pool_id@)
                        && m.vms[i as int].is_available());
                }
                let mut row = self.vms[i].clone();
                row.current_agent_id = Some(strutil::s(lease_id));
                let out = row.clone();
                self.vms.set(i, row);
                proof {
                    assert(out@ == (VmModel {
                        current_agent_id: Some(lease_id@),
                        ..m.vms[i as int]
                    }));
                    assert(self@.vms =~= m.vms.update(i as int, out@));
                    Self::lemma_vm_update_preserves_wf(m, self@, i as int, out@);
                }
                return Ok(out);
            }
            i = i + 1;
        }
        Err(Error::NoVMAvailable)
    }

    /// Set the state of the VM with the given id, if it exists.
    pub fn update_vm_state(&mut self, id: &str, state: VMState)
        requires
            old(self)@.wf(),
        ensures
            final(self)@.wf(),
            final(self)@.templates == old(self)@.templates,
            final(self)@.pools == old(self)@.pools,
            !old(self)@.has_vm_id(id@) ==> final(self)@ == old(self)@,
            old(self)@.has_vm_id(id@) ==> final(self)@.vms == old(self)@.vms.update(
                old(self)@.vm_idx(id@),
                (VmModel { state: state, ..old(self)@.vms[old(self)@.vm_idx(id@)] }),
            ),
    {
        let ghost m = old(self)@;
        match self.find_vm_index(id) {
            None => {},
            Some(i) => {
                let mut row = self.vms[i].clone();
                row.state = state;
                let ghost v = row@;
                self.vms.set(i, row);
                proof {
                    assert(self@.vms =~= m.vms.update(i as int, v));
                    Self::lemma_vm_update_preserves_wf(m, self@, i as int, v);
                }
            },
        }
    }

    /// Set the IP address of the VM with the given id, if it exists.
    pub fn update_vm_ip(&mut self, id: &str, ip: Option<&str>)
        requires
            old(self)@.wf(),
        ensures
            final(self)@.wf(),
            final(self)@.templates == old(self)@.templates,
            final(self)@.pools == old(self)@.pools,
            !old(self)@.has_vm_id(id@) ==> final(self)@ == old(self)@,
            old(self)@.has_vm_id(id@) ==> final(self)@.vms == old(self)@.vms.update(
                old(self)@.vm_idx(id@),
                (VmModel { ip_address: ip.deep_view(), ..old(self)@.vms[old(self)@.vm_idx(id@)] }),
            ),
    {
        let ghost m = old(self)@;
        match self.find_vm_index(id) {
            None => {},
            Some(i) => {
                let mut row = self.vms[i].clone();
                row.ip_address = match ip {
                    Some(s) => Some(strutil::s(s)),
                    None => None,
                };
                let ghost v = row@;
                self.vms.set(i, row);
                proof {
                    assert(self@.vms =~= m.vms.update(i as int, v));
                    Self::lemma_vm_update_preserves_wf(m, self@, i as int, v);
                }
            },
        }
    }

    /// Set or clear the lease holder of the VM with the given id, if it
    /// exists.
    pub fn update_vm_agent(&mut self, vm_id: &str, agent_id: Option<&str>)
        requires
            old(self)@.wf(),
        ensures
            final(self)@.wf(),
            final(self)@.templates == old(self)@.templates,
            final(self)@.pools == old(self)@.pools,
            !old(self)@.has_vm_id(vm_id@) ==> final(self)@ == old(self)@,
            old(self)@.has_vm_id(vm_id@) ==> final(self)@.vms == old(self)@.vms.update(
                old(self)@.vm_idx(vm_id@),
                (VmModel {
                    current_agent_id: agent_id.deep_view(),
                    ..old(self)@.vms[old(self)@.vm_idx(vm_id@)]
                }),
            ),
    {
        let ghost m = old(self)@;
        match self.find_vm_index(vm_id) {
            None => {},
            Some(i) => {
                let mut row = self.vms[i].clone();
                row.current_agent_id = match agent_id {
                    Some(s) => Some(strutil::s(s)),
                    None => None,
                };
                let ghost v = row@;
                self.vms.set(i, row);
                proof {
                    assert(self@.vms =~= m.vms.update(i as int, v));
                    Self::lemma_vm_update_preserves_wf(m, self@, i as int, v);
                }
            },
        }
    }

    /// Stamp the last resume time of the VM with the given id, if it exists.
    pub fn update_vm_resumed(&mut self, id: &str, now: i64)
        requires
            old(self)@.wf(),
        ensures
            final(self)@.wf(),
            final(self)@.templates == old(self)@.templates,
            final(self)@.pools == old(self)@.pools,
            !old(self)@.has_vm_id(id@) ==> final(self)@ == old(self)@,
            old(self)@.has_vm_id(id@) ==> final(self)@.vms == old(self)@.vms.update(
                old(self)@.vm_idx(id@),
                (VmModel {
                    last_resumed_at: Some(now),
                    ..old(self)@.vms[old(self)@.vm_idx(id@)]
                }),
            ),
    {
        let ghost m = old(self)@;
        match self.find_vm_index(id) {
            None => {},
            Some(i) => {
                let mut row = self.vms[i].clone();
                row.last_resumed_at = Some(now);
                let ghost v = row@;
                self.vms.set(i, row);
                proof {
                    assert(self@.vms =~= m.vms.update(i as int, v));
                    Self::lemma_vm_update_preserves_wf(m, self@, i as int, v);
                }
            },
        }
    }

    /// Put the VM with the given id into the error state and record why,
    /// if it exists.
    pub fn mark_vm_error(&mut self, id: &str, message: &str)
        requires
            old(self)@.wf(),
        ensures
            final(self)@.wf(),
            final(self)@.templates == old(self)@.templates,
            final(self)@.pools == old(self)@.pools,
            !old(self)@.has_vm_id(id@) ==> final(self)@ == old(self)@,
            old(self)@.has_vm_id(id@) ==> final(self)@.vms == old(self)@.vms.update(
                old(self)@.vm_idx(id@),
                (VmModel {
                    state: VMState::Error,
                    error_message: Some(message@),
                    ..old(self)@.vms[old(self)@.vm_idx(id@)]
                }),
            ),
    {
        let ghost m = old(self)@;
        match self.find_vm_index(id) {
            None => {},
            Some(i) => {
                let mut row = self.vms[i].clone();
                row.state = VMState::Error;
                row.error_message = Some(strutil::s(message));
                let ghost v = row@;
                self.vms.set(i, row);
                proof {
                    assert(self@.vms =~= m.vms.update(i as int, v));
                    Self::lemma_vm_update_preserves_wf(m, self@, i as int, v);
                }
            },
        }
    }

    /// Delete the VM row with the given id. Returns whether a row was
    /// removed.
    pub fn delete_vm(&mut self, id: &str) -> (r: bool)
        requires
            old(self)@.wf(),
        ensures
            final(self)@.wf(),
            r <==> old(self)@.has_vm_id(id@),
            !r ==> final(self)@ == old(self)@,
            r ==> final(self)@.vms == old(self)@.vms.remove(old(self)@.vm_idx(id@))
                && final(self)@.templates == old(self)@.templates
                && final(self)@.pools == old(self)@.pools,
    {
        let ghost m = old(self)@;
        match self.find_vm_index(id) {
            None => false,
            Some(i) => {
                self.vms.remove(i);
                proof {
                    assert(self@.vms =~= m.vms.remove(i as int));
                    Self::lemma_vm_remove_preserves_wf(m, self@, i as int);
                }
                true
            },
        }
    }

    /// Whether a batch of rows can be inserted as one atomic step: every id
    /// and name is fresh, no two rows share one, and every reference points
    /// at an existing template or pool.
    pub open spec fn rows_batch_ok(m: StoreModel, rows: Seq<VmModel>) -> bool {
        (forall|i: int|
            0 <= i < rows.len() ==> !m.has_vm_id((#[trigger] rows[i]).id) && !m.has_vm_name(
                rows[i].name,
            ) && (rows[i].template_id matches Some(t) ==> m.has_template_id(t)) && (
            rows[i].pool_id matches Some(p) ==> m.has_pool_id(p))) && (forall|i: int, j: int|
            #![trigger rows[i], rows[j]]
            0 <= i < j < rows.len() ==> rows[i].id != rows[j].id && rows[i].name != rows[j].name)
    }

    /// Appending a fresh row keeps the catalog well-formed.
    proof fn lemma_vm_push_preserves_wf(pre: StoreModel, post: StoreModel, v: VmModel)
        requires
            pre.wf(),
            !pre.has_vm_id(v.id),
            !pre.has_vm_name(v.name),
            post.templates == pre.templates,
            post.pools == pre.pools,
            post.vms == pre.vms.push(v),
        ensures
            post.wf(),
    {
        assert forall|i: int, j: int|
            #![trigger post.vms[i], post.vms[j]]
            0 <= i < j < post.vms.len() implies post.vms[i].id != post.vms[j].id
            && post.vms[i].name != post.vms[j].name by {
            if j < pre.vms.len() {
                assert(pre.vms[i].id != pre.vms[j].id && pre.vms[i].name != pre.vms[j].name);
            } else {
                assert(post.vms[j] == v);
                assert(post.vms[i] == pre.vms[i]);
            }
        }
        assert forall|a: int|
            0 <= a < post.pools.len() implies post.has_template_id(
            #[trigger] post.pools[a].template_id,
        ) by {
            assert(pre.has_template_id(pre.pools[a].template_id));
            let w = choose|x: int|
                0 <= x < pre.templates.len() && (#[trigger] pre.templates[x]).id
                    == pre.pools[a].template_id;
            assert(post.templates[w].id == post.pools[a].template_id);
        }
    }

    /// Insert a batch of VM rows as one atomic step: either every row goes
    /// in, or the catalog is left untouched. Fails with `Conflict` exactly
    /// when some id or name is taken or repeated, or some reference is
    /// dangling.
    pub fn insert_vms_atomic(&mut self, rows: &Vec<VM>) -> (r: Result<(), Error>)
        requires
            old(self)@.wf(),
        ensures
            final(self)@.wf(),
            r is Ok <==> Self::rows_batch_ok(old(self)@, rows.deep_view()),
            r is Ok ==> final(self)@.vms == old(self)@.vms + rows.deep_view()
                && final(self)@.templates == old(self)@.templates
                && final(self)@.pools == old(self)@.pools,
            r is Err ==> final(self)@ == old(self)@,
            r matches Err(e) ==> e is Conflict,
    {
        let ghost m = old(self)@;
        let ghost rs = rows.deep_view();
        let mut i: usize = 0;
        while i < rows.len()
            invariant
                self@ == m,
                m == old(self)@,
                m.wf(),
                rs == rows.deep_view(),
                i <= rs.len(),
                forall|k: int|
                    0 <= k < i ==> !m.has_vm_id((#[trigger] rs[k]).id) && !m.has_vm_name(
                        rs[k].name,
                    ) && (rs[k].template_id matches Some(t) ==> m.has_template_id(t)) && (
                    rs[k].pool_id matches Some(p) ==> m.has_pool_id(p)),
                forall|a: int, b: int|
                    #![trigger rs[a], rs[b]]
                    0 <= a < b < i ==> rs[a].id != rs[b].id && rs[a].name != rs[b].name,
            decreases rs.len() - i,
        {
            if self.get_vm(strutil::as_str(&rows[i].id)).is_some() {
                proof {
                    assert(m.has_vm_id(rs[i as int].id));
                }
                return Err(Error::Conflict(strutil::s("vm id already exists")));
            }
            if self.get_vm_by_name(strutil::as_str(&rows[i].name)).is_some() {
                proof {
                    assert(m.has_vm_name(rs[i as int].name));
                }
                return Err(Error::Conflict(strutil::s("vm name already exists")));
            }
            match &rows[i].template_id {
                Some(tid) => {
                    if self.get_template(strutil::as_str(tid)).is_none() {
                        proof {
                            assert(rs[i as int].template_id == Some(tid@));
                        }
                        return Err(
                            Error::Conflict(strutil::s("vm references a missing template")),
                        );
                    }
                },
                None => {},
            }
            match &rows[i].pool_id {
                Some(pid) => {
                    if self.get_pool(strutil::as_str(pid)).is_none() {
                        proof {
                            assert(rs[i as int].pool_id == Some(pid@));
                        }
                        return Err(Error::Conflict(strutil::s("vm references a missing pool")));
                    }
                },
                None => {},
            }
            let mut j: usize = 0;
            while j < i
                invariant
                    self@ == m,
                    m == old(self)@,
                    m.wf(),
                    rs == rows.deep_view(),
                    j <= i < rs.len(),
                    forall|a: int|
                        0 <= a < j ==> (#[trigger] rs[a]).id != rs[i as int].id && rs[a].name
                            != rs[i as int].name,
                decreases i - j,
            {
                if strutil::str_eq(
                    strutil::as_str(&rows[j].id),
                    strutil::as_str(&rows[i].id),
                ) {
                    proof {
                        assert(rs[j as int].id == rs[i as int].id);
                    }
                    return Err(Error::Conflict(strutil::s("vm id repeated in batch")));
                }
                if strutil::str_eq(
                    strutil::as_str(&rows[j].name),
                    strutil::as_str(&rows[i].name),
                ) {
                    proof {
                        assert(rs[j as int].name == rs[i as int].name);
                    }
                    return Err(Error::Conflict(strutil::s("vm name repeated in batch")));
                }
                j = j + 1;
            }
            i = i + 1;
        }
        // Every row checked: commit the whole batch.
        proof {
            assert(Self::rows_batch_ok(m, rs));
        }
        let mut i: usize = 0;
        while i < rows.len()
            invariant
                m.wf(),
                rs == rows.deep_view(),
                Self::rows_batch_ok(m, rs),
                i <= rs.len(),
                self@.wf(),
                self@.templates == m.templates,
                self@.pools == m.pools,
                self@.vms == m.vms + rs.subrange(0, i as int),
            decreases rs.len() - i,
        {
            let ghost pre = self@;
            proof {
                assert(!pre.has_vm_id(rs[i as int].id) && !pre.has_vm_name(rs[i as int].name))
                    by {
                    if pre.has_vm_id(rs[i as int].id) {
                        let w = choose|k: int|
                            0 <= k < pre.vms.len() && (#[trigger] pre.vms[k]).id
                                == rs[i as int].id;
                        if w < m.vms.len() {
                            assert(m.vms[w].id == rs[i as int].id);
                            assert(m.has_vm_id(rs[i as int].id));
                        } else {
                            assert(pre.vms[w] == rs[w - m.vms.len()]);
                            assert(rs[w - m.vms.len()].id == rs[i as int].id);
                        }
                    }
                    if pre.has_vm_name(rs[i as int].name) {
                        let w = choose|k: int|
                            0 <= k < pre.vms.len() && (#[trigger] pre.vms[k]).name
                                == rs[i as int].name;
                        if w < m.vms.len() {
                            assert(m.vms[w].name == rs[i as int].name);
                            assert(m.has_vm_name(rs[i as int].name));
                        } else {
                            assert(pre.vms[w] == rs[w - m.vms.len()]);
                            assert(rs[w - m.vms.len()].name == rs[i as int].name);
                        }
                    }
                }
            }
            self.vms.push(rows[i].clone());
            proof {
                assert(self@.vms =~= pre.vms.push(rs[i as int]));
                Self::lemma_vm_push_preserves_wf(pre, self@, rs[i as int]);
                assert(self@.vms =~= m.vms + rs.subrange(0, i as int + 1));
            }
            i = i + 1;
        }
        proof {
            assert(rs.subrange(0, rs.len() as int) =~= rs);
        }
        Ok(())
    }

    // ===== Reconciliation =====

    /// Heal drift against a hypervisor listing: for every known VM the
    /// hypervisor's state wins, and a VM the hypervisor no longer knows is
    /// put into the error state with a message. Leases are never touched;
    /// listed VMs the catalog does not know are ignored.
    pub fn reconcile_states(&mut self, listing: &Vec<HyperVInfo>)
        requires
            old(self)@.wf(),
        ensures
            final(self)@.wf(),
            final(self)@ == reconcile_model(old(self)@, listing.deep_view()),
    {
        let ghost m = old(self)@;
        let ghost l = listing.deep_view();
        let mut i: usize = 0;
        while i < self.vms.len()
            invariant
                self@.wf(),
                m.wf(),
                l == listing.deep_view(),
                self@.templates == m.templates,
                self@.pools == m.pools,
                self@.vms.len() == m.vms.len(),
                i <= m.vms.len(),
                forall|k: int| 0 <= k < i ==> self@.vms[k] == reconciled_vm(#[trigger] m.vms[k], l),
                forall|k: int| i <= k < m.vms.len() ==> self@.vms[k] == #[trigger] m.vms[k],
            decreases m.vms.len() - i,
        {
            let ghost pre = self@;
            let raw = crate::hyperv::find_in_listing(listing, strutil::as_str(&self.vms[i].name));
            let mut row = self.vms[i].clone();
            match raw {
                Some(code) => {
                    let actual = VMState::from_hyperv_state(code);
                    if !(actual == row.state) {
                        row.state = actual;
                    }
                },
                None => {
                    row.state = VMState::Error;
                    row.error_message = Some(strutil::s("not present in hypervisor"));
                },
            }
            let ghost v = row@;
            self.vms.set(i, row);
            proof {
                assert(v == reconciled_vm(m.vms[i as int], l));
                assert(self@.vms =~= pre.vms.update(i as int, v));
                Self::lemma_vm_update_preserves_wf(pre, self@, i as int, v);
            }
            i = i + 1;
        }
        proof {
            assert(self@.vms =~= Seq::new(m.vms.len(), |k: int| reconciled_vm(m.vms[k], l)));
        }
    }
}

} // verus!

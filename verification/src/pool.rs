//! Warm-pool management: a set of pre-warmed sandboxes that tasks acquire
//! and release.
//!
//! The pool itself is an in-memory table with unique entries; warming a new
//! sandbox is driven by the surrounding binary, which registers the entry
//! here, performs the outside work, and then marks the entry available or
//! failed.

use vstd::prelude::*;

use crate::config::SandboxConfig;
use crate::error::Error;
use crate::strutil;
use crate::trusted;

verus! {

/// Status of a sandbox in the pool.
#[derive(Debug, Clone, Copy, PartialEq, Eq, Structural)]
pub enum PooledSandboxStatus {
    /// Warm and ready for acquisition.
    Available,
    /// Currently in use by a task.
    Acquired,
    /// Being prepared.
    Warming,
    /// Failed; needs cleanup.
    Failed,
}

/// The mathematical value of a pooled-sandbox entry.
pub struct PooledSandboxModel {
    pub id: Seq<char>,
    pub name: Seq<char>,
    pub status: PooledSandboxStatus,
    pub acquired_at: Option<i64>,
    pub acquired_by: Option<Seq<char>>,
    pub vm_id: Option<Seq<char>>,
}

/// One sandbox held by the pool.
#[derive(Debug)]
pub struct PooledSandbox {
    pub id: String,
    pub name: String,
    pub status: PooledSandboxStatus,
    /// When the sandbox was acquired, milliseconds since the Unix epoch.
    pub acquired_at: Option<i64>,
    pub acquired_by: Option<String>,
    pub vm_id: Option<String>,
}

impl View for PooledSandbox {
    type V = PooledSandboxModel;

    open spec fn view(&self) -> PooledSandboxModel {
        PooledSandboxModel {
            id: self.id@,
            name: self.name@,
            status: self.status,
            acquired_at: self.acquired_at,
            acquired_by: self.acquired_by.deep_view(),
            vm_id: self.vm_id.deep_view(),
        }
    }
}

impl DeepView for PooledSandbox {
    type V = PooledSandboxModel;

    open spec fn deep_view(&self) -> PooledSandboxModel {
        self.view()
    }
}

impl Clone for PooledSandbox {
    /// A copy with the same mathematical value.
    fn clone(&self) -> (r: Self)
        ensures
            r@ == self@,
    {
        PooledSandbox {
            id: strutil::s_clone(&self.id),
            name: strutil::s_clone(&self.name),
            status: self.status,
            acquired_at: self.acquired_at,
            acquired_by: strutil::opt_clone(&self.acquired_by),
            vm_id: strutil::opt_clone(&self.vm_id),
        }
    }
}

/// Pool configuration.
#[derive(Debug, Clone)]
pub struct PoolConfig {
    /// Pool name.
    pub name: String,
    /// Minimum warm sandboxes to maintain.
    pub min_warm: usize,
    /// Maximum total sandboxes.
    pub max_total: usize,
    /// Sandbox configuration template.
    pub sandbox_config: SandboxConfig,
    /// Bound, in seconds, on waiting for an acquisition.
    pub acquire_timeout_secs: u64,
    /// Whether to reset sandboxes on release.
    pub reset_on_release: bool,
}

impl PoolConfig {
    /// A configuration with the stock sizing.
    pub fn new(name: String, sandbox_config: SandboxConfig) -> (r: Self)
        ensures
            r.name == name,
            r.min_warm == 2,
            r.max_total == 10,
            r.sandbox_config == sandbox_config,
            r.acquire_timeout_secs == 30,
            r.reset_on_release,
    {
        PoolConfig {
            name,
            min_warm: 2,
            max_total: 10,
            sandbox_config,
            acquire_timeout_secs: 30,
            reset_on_release: true,
        }
    }

    pub fn min_warm(self, n: usize) -> (r: Self)
        ensures
            r == (PoolConfig { min_warm: n, ..self }),
    {
        PoolConfig { min_warm: n, ..self }
    }

    pub fn max_total(self, n: usize) -> (r: Self)
        ensures
            r == (PoolConfig { max_total: n, ..self }),
    {
        PoolConfig { max_total: n, ..self }
    }

    pub fn acquire_timeout(self, timeout_secs: u64) -> (r: Self)
        ensures
            r == (PoolConfig { acquire_timeout_secs: timeout_secs, ..self }),
    {
        PoolConfig { acquire_timeout_secs: timeout_secs, ..self }
    }

    pub fn reset_on_release(self, reset: bool) -> (r: Self)
        ensures
            r == (PoolConfig { reset_on_release: reset, ..self }),
    {
        PoolConfig { reset_on_release: reset, ..self }
    }
}

/// Pool status information.
#[derive(Debug, Clone)]
pub struct PoolStatus {
    pub name: String,
    pub total: usize,
    pub available: usize,
    pub acquired: usize,
    pub warming: usize,
    pub failed: usize,
}

/// How many entries of `s` sit in the given status.
pub open spec fn count_with_status(s: Seq<PooledSandboxModel>, st: PooledSandboxStatus) -> nat
    decreases s.len(),
{
    if s.len() == 0 {
        0
    } else {
        count_with_status(s.drop_last(), st) + if s.last().status == st {
            1nat
        } else {
            0nat
        }
    }
}

/// Entry ids are unique within a pool.
pub open spec fn entries_wf(s: Seq<PooledSandboxModel>) -> bool {
    forall|i: int, j: int|
        #![trigger s[i], s[j]]
        0 <= i < j < s.len() ==> s[i].id != s[j].id
}

/// Manages a pool of warm sandboxes.
pub struct Pool {
    config: PoolConfig,
    sandboxes: Vec<PooledSandbox>,
    base_path: String,
}

impl View for Pool {
    type V = Seq<PooledSandboxModel>;

    closed spec fn view(&self) -> Seq<PooledSandboxModel> {
        self.sandboxes.deep_view()
    }
}

impl Pool {
    /// The pool's configuration, for specification purposes.
    pub closed spec fn spec_config(&self) -> PoolConfig {
        self.config
    }

    /// Whether an entry with the given id exists.
    pub open spec fn has_entry(self, id: Seq<char>) -> bool {
        exists|k: int| 0 <= k < self@.len() && (#[trigger] self@[k]).id == id
    }

    /// The index of the entry with the given id.
    pub open spec fn entry_idx(self, id: Seq<char>) -> int {
        choose|k: int| 0 <= k < self@.len() && (#[trigger] self@[k]).id == id
    }

    /// Whether any entry is available for acquisition.
    pub open spec fn has_available(self) -> bool {
        exists|k: int|
            0 <= k < self@.len() && (#[trigger] self@[k]).status == PooledSandboxStatus::Available
    }

    /// A new, empty pool.
    pub fn new(config: PoolConfig, base_path: String) -> (r: Self)
        ensures
            r@.len() == 0,
            entries_wf(r@),
    {
        let r = Pool { config, sandboxes: Vec::new(), base_path };
        proof {
            assert(r@ =~= Seq::<PooledSandboxModel>::empty());
        }
        r
    }

    /// The pool's configuration.
    pub fn config(&self) -> (r: &PoolConfig)
        ensures
            r == self.spec_config(),
    {
        &self.config
    }

    /// Current membership, bucketed by status.
    pub fn status(&self) -> (r: PoolStatus)
        ensures
            r.name@ == self.spec_config().name@,
            r.total == self@.len(),
            r.available == count_with_status(self@, PooledSandboxStatus::Available),
            r.acquired == count_with_status(self@, PooledSandboxStatus::Acquired),
            r.warming == count_with_status(self@, PooledSandboxStatus::Warming),
            r.failed == count_with_status(self@, PooledSandboxStatus::Failed),
    {
        let ghost s = self@;
        let mut available: usize = 0;
        let mut acquired: usize = 0;
        let mut warming: usize = 0;
        let mut failed: usize = 0;
        let mut i: usize = 0;
        proof {
            assert(s.subrange(0, 0) =~= Seq::<PooledSandboxModel>::empty());
        }
        while i < self.sandboxes.len()
            invariant
                s == self@,
                i <= s.len(),
                available == count_with_status(s.subrange(0, i as int), PooledSandboxStatus::Available),
                acquired == count_with_status(s.subrange(0, i as int), PooledSandboxStatus::Acquired),
                warming == count_with_status(s.subrange(0, i as int), PooledSandboxStatus::Warming),
                failed == count_with_status(s.subrange(0, i as int), PooledSandboxStatus::Failed),
                available <= i && acquired <= i && warming <= i && failed <= i,
            decreases s.len() - i,
        {
            proof {
                assert(s.subrange(0, i as int + 1).drop_last() =~= s.subrange(0, i as int));
                assert(s.subrange(0, i as int + 1).last() == s[i as int]);
            }
            match self.sandboxes[i].status {
                PooledSandboxStatus::Available => {
                    available = available + 1;
                },
                PooledSandboxStatus::Acquired => {
                    acquired = acquired + 1;
                },
                PooledSandboxStatus::Warming => {
                    warming = warming + 1;
                },
                PooledSandboxStatus::Failed => {
                    failed = failed + 1;
                },
            }
            i = i + 1;
        }
        proof {
            assert(s.subrange(0, s.len() as int) =~= s);
        }
        PoolStatus {
            name: strutil::s_clone(&self.config.name),
            total: self.sandboxes.len(),
            available,
            acquired,
            warming,
            failed,
        }
    }

    /// How many sandboxes a warm-up pass should add to reach `min_warm`.
    pub fn warm_needed(&self) -> (r: usize)
        ensures
            r == if count_with_status(self@, PooledSandboxStatus::Available) + count_with_status(
                self@,
                PooledSandboxStatus::Warming,
            ) >= self.spec_config().min_warm {
                0int
            } else {
                self.spec_config().min_warm - count_with_status(
                    self@,
                    PooledSandboxStatus::Available,
                ) - count_with_status(self@, PooledSandboxStatus::Warming)
            },
    {
        let st = self.status();
        if st.available >= self.config.min_warm {
            return 0;
        }
        let room = self.config.min_warm - st.available;
        if st.warming >= room {
            0
        } else {
            room - st.warming
        }
    }

    /// Register a sandbox that a warm-up pass is about to create. Fails with
    /// `Conflict` exactly when the id is already taken.
    pub fn add_warming(&mut self, name: String) -> (r: Result<(), Error>)
        requires
            entries_wf(old(self)@),
        ensures
            entries_wf(final(self)@),
            r is Ok <==> !old(self).has_entry(name@),
            r is Ok ==> final(self)@ == old(self)@.push(
                (PooledSandboxModel {
                    id: name@,
                    name: name@,
                    status: PooledSandboxStatus::Warming,
                    acquired_at: None,
                    acquired_by: None,
                    vm_id: None,
                }),
            ),
            r is Err ==> final(self)@ == old(self)@,
            r matches Err(e) ==> e is Conflict,
    {
        let ghost s = old(self)@;
        let mut i: usize = 0;
        while i < self.sandboxes.len()
            invariant
                self@ == s,
                s == old(self)@,
                entries_wf(s),
                i <= s.len(),
                forall|k: int| 0 <= k < i ==> (#[trigger] s[k]).id != name@,
            decreases s.len() - i,
        {
            if strutil::str_eq(strutil::as_str(&self.sandboxes[i].id), strutil::as_str(&name)) {
                proof {
                    assert(s[i as int].id == name@);
                }
                return Err(Error::Conflict(strutil::s("sandbox already pooled")));
            }
            i = i + 1;
        }
        let entry = PooledSandbox {
            id: strutil::s_clone(&name),
            name,
            status: PooledSandboxStatus::Warming,
            acquired_at: None,
            acquired_by: None,
            vm_id: None,
        };
        self.sandboxes.push(entry);
        proof {
            assert(self@ =~= s.push(
                PooledSandboxModel {
                    id: self@[s.len() as int].id,
                    name: self@[s.len() as int].name,
                    status: PooledSandboxStatus::Warming,
                    acquired_at: None,
                    acquired_by: None,
                    vm_id: None,
                },
            ));
            assert forall|a: int, b: int|
                #![trigger self@[a], self@[b]]
                0 <= a < b < self@.len() implies self@[a].id != self@[b].id by {
                if b < s.len() {
                    assert(s[a].id != s[b].id);
                }
            }
        }
        Ok(())
    }

    /// Record the outcome of a warm-up: the entry becomes available and
    /// remembers its VM id. A missing entry leaves the pool unchanged.
    pub fn mark_available(&mut self, sandbox_id: &str, vm_id: String)
        requires
            entries_wf(old(self)@),
        ensures
            entries_wf(final(self)@),
            !old(self).has_entry(sandbox_id@) ==> final(self)@ == old(self)@,
            old(self).has_entry(sandbox_id@) ==> final(self)@ == old(self)@.update(
                old(self).entry_idx(sandbox_id@),
                (PooledSandboxModel {
                    status: PooledSandboxStatus::Available,
                    vm_id: Some(vm_id@),
                    ..old(self)@[old(self).entry_idx(sandbox_id@)]
                }),
            ),
    {
        let ghost s = old(self)@;
        match self.find_index(sandbox_id) {
            None => {},
            Some(i) => {
                let mut entry = self.sandboxes[i].clone();
                entry.status = PooledSandboxStatus::Available;
                entry.vm_id = Some(vm_id);
                let ghost v = entry@;
                self.sandboxes.set(i, entry);
                proof {
                    assert(self@ =~= s.update(i as int, v));
                    Self::lemma_update_same_id(s, self@, i as int, v);
                }
            },
        }
    }

    /// Record that a warm-up failed. A missing entry leaves the pool
    /// unchanged.
    pub fn mark_failed(&mut self, sandbox_id: &str)
        requires
            entries_wf(old(self)@),
        ensures
            entries_wf(final(self)@),
            !old(self).has_entry(sandbox_id@) ==> final(self)@ == old(self)@,
            old(self).has_entry(sandbox_id@) ==> final(self)@ == old(self)@.update(
                old(self).entry_idx(sandbox_id@),
                (PooledSandboxModel {
                    status: PooledSandboxStatus::Failed,
                    ..old(self)@[old(self).entry_idx(sandbox_id@)]
                }),
            ),
    {
        let ghost s = old(self)@;
        match self.find_index(sandbox_id) {
            None => {},
            Some(i) => {
                let mut entry = self.sandboxes[i].clone();
                entry.status = PooledSandboxStatus::Failed;
                let ghost v = entry@;
                self.sandboxes.set(i, entry);
                proof {
                    assert(self@ =~= s.update(i as int, v));
                    Self::lemma_update_same_id(s, self@, i as int, v);
                }
            },
        }
    }

    /// Acquire an available sandbox for a task: the first available entry is
    /// marked acquired by the task, with the acquisition time stamped. Fails
    /// with `NoSandboxAvailable` exactly when no entry is available.
    pub fn acquire(&mut self, task_id: &str) -> (r: Result<PooledSandbox, Error>)
        requires
            entries_wf(old(self)@),
        ensures
            entries_wf(final(self)@),
            r is Ok <==> old(self).has_available(),
            r is Err ==> final(self)@ == old(self)@,
            r matches Err(e) ==> e is NoSandboxAvailable,
            r matches Ok(sb) ==> sb@.status == PooledSandboxStatus::Acquired && sb@.acquired_by
                == Some(task_id@) && sb@.acquired_at is Some && exists|k: int|
                0 <= k < old(self)@.len() && (#[trigger] old(self)@[k]).status
                    == PooledSandboxStatus::Available && sb@ == (PooledSandboxModel {
                    status: PooledSandboxStatus::Acquired,
                    acquired_at: sb@.acquired_at,
                    acquired_by: Some(task_id@),
                    ..old(self)@[k]
                }) && final(self)@ == old(self)@.update(k, sb@),
    {
        let ghost s = old(self)@;
        let mut i: usize = 0;
        while i < self.sandboxes.len()
            invariant
                self@ == s,
                s == old(self)@,
                entries_wf(s),
                i <= s.len(),
                forall|k: int|
                    0 <= k < i ==> (#[trigger] s[k]).status != PooledSandboxStatus::Available,
            decreases s.len() - i,
        {
            if self.sandboxes[i].status == PooledSandboxStatus::Available {
                let mut entry = self.sandboxes[i].clone();
                entry.status = PooledSandboxStatus::Acquired;
                entry.acquired_at = Some(trusted::now_millis());
                entry.acquired_by = Some(strutil::s(task_id));
                let out = entry.clone();
                let ghost v = entry@;
                self.sandboxes.set(i, entry);
                proof {
                    assert(s[i as int].status == PooledSandboxStatus::Available);
                    assert(self@ =~= s.update(i as int, v));
                    Self::lemma_update_same_id(s, self@, i as int, v);
                }
                return Ok(out);
            }
            i = i + 1;
        }
        Err(Error::NoSandboxAvailable)
    }

    /// Release a sandbox back to the pool: it becomes available again and
    /// forgets who held it. A missing entry leaves the pool unchanged.
    pub fn release(&mut self, sandbox_id: &str)
        requires
            entries_wf(old(self)@),
        ensures
            entries_wf(final(self)@),
            !old(self).has_entry(sandbox_id@) ==> final(self)@ == old(self)@,
            old(self).has_entry(sandbox_id@) ==> final(self)@ == old(self)@.update(
                old(self).entry_idx(sandbox_id@),
                (PooledSandboxModel {
                    status: PooledSandboxStatus::Available,
                    acquired_at: None,
                    acquired_by: None,
                    ..old(self)@[old(self).entry_idx(sandbox_id@)]
                }),
            ),
    {
        let ghost s = old(self)@;
        match self.find_index(sandbox_id) {
            None => {},
            Some(i) => {
                let mut entry = self.sandboxes[i].clone();
                entry.status = PooledSandboxStatus::Available;
                entry.acquired_at = None;
                entry.acquired_by = None;
                let ghost v = entry@;
                self.sandboxes.set(i, entry);
                proof {
                    assert(self@ =~= s.update(i as int, v));
                    Self::lemma_update_same_id(s, self@, i as int, v);
                }
            },
        }
    }

    /// Remove a sandbox from the pool. Returns the entry that was removed,
    /// if any, so that the caller can tear down its VM.
    pub fn remove_entry(&mut self, sandbox_id: &str) -> (r: Option<PooledSandbox>)
        requires
            entries_wf(old(self)@),
        ensures
            entries_wf(final(self)@),
            r is Some <==> old(self).has_entry(sandbox_id@),
            r is None ==> final(self)@ == old(self)@,
            r matches Some(sb) ==> sb@ == old(self)@[old(self).entry_idx(sandbox_id@)]
                && final(self)@ == old(self)@.remove(old(self).entry_idx(sandbox_id@)),
    {
        let ghost s = old(self)@;
        match self.find_index(sandbox_id) {
            None => None,
            Some(i) => {
                let out = self.sandboxes[i].clone();
                self.sandboxes.remove(i);
                proof {
                    assert(self@ =~= s.remove(i as int));
                    assert forall|a: int, b: int|
                        #![trigger self@[a], self@[b]]
                        0 <= a < b < self@.len() implies self@[a].id != self@[b].id by {
                        let oa = if a < i {
                            a
                        } else {
                            a + 1
                        };
                        let ob = if b < i {
                            b
                        } else {
                            b + 1
                        };
                        assert(self@[a] == s[oa] && self@[b] == s[ob]);
                        assert(s[oa].id != s[ob].id);
                    }
                }
                Some(out)
            },
        }
    }

    /// All sandboxes in the pool, in registration order.
    pub fn list(&self) -> (r: Vec<PooledSandbox>)
        ensures
            r.deep_view() == self@,
    {
        let mut r: Vec<PooledSandbox> = Vec::new();
        let mut i: usize = 0;
        proof {
            assert(r.deep_view() =~= self@.subrange(0, 0));
        }
        while i < self.sandboxes.len()
            invariant
                i <= self@.len(),
                r.deep_view() == self@.subrange(0, i as int),
            decreases self@.len() - i,
        {
            let ghost prev = r.deep_view();
            r.push(self.sandboxes[i].clone());
            proof {
                assert(r.deep_view() =~= prev.push(self@[i as int]));
                assert(r.deep_view() =~= self@.subrange(0, i as int + 1));
            }
            i = i + 1;
        }
        proof {
            assert(r.deep_view() =~= self@);
        }
        r
    }

    /// The index of the entry with the given id, if any.
    fn find_index(&self, sandbox_id: &str) -> (r: Option<usize>)
        requires
            entries_wf(self@),
        ensures
            r is Some <==> self.has_entry(sandbox_id@),
            r matches Some(i) ==> 0 <= i < self@.len() && self@[i as int].id == sandbox_id@
                && self.entry_idx(sandbox_id@) == i,
    {
        let mut i: usize = 0;
        while i < self.sandboxes.len()
            invariant
                entries_wf(self@),
                i <= self@.len(),
                forall|k: int| 0 <= k < i ==> (#[trigger] self@[k]).id != sandbox_id@,
            decreases self@.len() - i,
        {
            if strutil::str_eq(strutil::as_str(&self.sandboxes[i].id), sandbox_id) {
                proof {
                    assert(self@[i as int].id == sandbox_id@);
                    assert(self.entry_idx(sandbox_id@) == i) by {
                        let w = self.entry_idx(sandbox_id@);
                        assert(0 <= w < self@.len() && self@[w].id == sandbox_id@);
                    }
                }
                return Some(i);
            }
            i = i + 1;
        }
        None
    }

    /// An entry update that keeps the id keeps ids unique.
    proof fn lemma_update_same_id(
        pre: Seq<PooledSandboxModel>,
        post: Seq<PooledSandboxModel>,
        k: int,
        v: PooledSandboxModel,
    )
        requires
            entries_wf(pre),
            0 <= k < pre.len(),
            v.id == pre[k].id,
            post == pre.update(k, v),
        ensures
            entries_wf(post),
    {
        assert forall|a: int, b: int|
            #![trigger post[a], post[b]]
            0 <= a < b < post.len() implies post[a].id != post[b].id by {
            assert(pre[a].id != pre[b].id);
        }
    }
}

} // verus!

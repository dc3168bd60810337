use hvkube::hyperv::HyperVInfo;
use hvkube::models::pool::VMPool;
use hvkube::models::template::Template;
use hvkube::models::vm::VMState;
use hvkube::orchestrator::Orchestrator;
use hvkube::Error;

/// An orchestrator with template `win11`, pool `agents`, and one VM
/// `agents-0` already provisioned. Returns the orchestrator and the ids of
/// template, pool and VM.
fn setup() -> (Orchestrator, String, String, String) {
    let mut orch = Orchestrator::new();
    let template = Template::new("win11".to_string(), r"/tmpl/win11.vhdx".to_string());
    let template_id = orch.register_template(template, true).unwrap();
    let pool = VMPool::new("agents".to_string(), template_id.clone()).with_count(1);
    let pool_id = orch.create_pool(pool).unwrap();
    let ids = orch.provision_pool(&pool_id, 1).unwrap();
    (orch, template_id, pool_id, ids[0].clone())
}

/// Drive a freshly provisioned VM through the warm-up protocol, as the
/// hypervisor adapter would.
fn prepare(orch: &mut Orchestrator, vm_id: &str, ip: &str) {
    orch.prepare_vm_begin(vm_id).unwrap();
    orch.prepare_vm_started(vm_id);
    orch.record_vm_ready(vm_id, ip).unwrap();
    orch.prepare_vm_finish(vm_id);
}

#[test]
fn test_register_template_requires_disk() {
    let mut orch = Orchestrator::new();
    let template = Template::new("win11".to_string(), r"/tmpl/missing.vhdx".to_string());
    let res = orch.register_template(template, false);
    assert!(matches!(res, Err(Error::Other(_))));
    assert!(orch.list_templates().is_empty());
}

#[test]
fn test_create_pool_unknown_template() {
    let mut orch = Orchestrator::new();
    let pool = VMPool::new("agents".to_string(), "tmpl-missing".to_string());
    let res = orch.create_pool(pool);
    assert!(matches!(res, Err(Error::TemplateNotFound(_))));
}

#[test]
fn test_provision_pool_adds_exactly_n() {
    let mut orch = Orchestrator::new();
    let template = Template::new("win11".to_string(), r"/tmpl/win11.vhdx".to_string());
    let template_id = orch.register_template(template, true).unwrap();
    let pool = VMPool::new("agents".to_string(), template_id).with_count(3);
    let pool_id = orch.create_pool(pool).unwrap();

    let ids = orch.provision_pool(&pool_id, 2).unwrap();
    assert_eq!(ids.len(), 2);

    let status = orch.get_pool_status(&pool_id).unwrap();
    assert_eq!(status.total_vms, 2);
    assert_eq!(status.off_vms, 2);

    let vms = orch.list_vms();
    assert_eq!(vms.len(), 2);
    assert_eq!(vms[0].name, "agents-0");
    assert_eq!(vms[1].name, "agents-1");
    assert_eq!(vms[0].state, VMState::Off);
    assert_eq!(
        vms[0].vhdx_path,
        r"C:\HyperVKube\VMs\agents-0\disk.vhdx"
    );

    // A second provision continues the numbering.
    let more = orch.provision_pool(&pool_id, 1).unwrap();
    assert_eq!(more.len(), 1);
    let vms = orch.list_vms();
    assert_eq!(vms[2].name, "agents-2");
}

#[test]
fn test_provision_pool_missing_pool() {
    let mut orch = Orchestrator::new();
    let res = orch.provision_pool("pool-missing", 1);
    assert!(matches!(res, Err(Error::PoolNotFound(_))));
    assert!(orch.list_vms().is_empty());
}

#[test]
fn test_provision_pool_respects_desired_count() {
    let mut orch = Orchestrator::new();
    let template = Template::new("win11".to_string(), r"/tmpl/win11.vhdx".to_string());
    let template_id = orch.register_template(template, true).unwrap();
    let pool = VMPool::new("agents".to_string(), template_id).with_count(2);
    let pool_id = orch.create_pool(pool).unwrap();

    let res = orch.provision_pool(&pool_id, 3);
    assert!(matches!(res, Err(Error::BadRequest(_))));
    // Failure is atomic: nothing was added.
    assert!(orch.list_vms().is_empty());
}

#[test]
fn test_prepare_then_acquire_happy_path() {
    // Scenario: one saved VM in the pool; an acquisition leases it, the
    // resume completes, and the VM ends running with a non-empty IP.
    let (mut orch, _t, pool_id, vm_id) = setup();
    prepare(&mut orch, &vm_id, "192.168.1.50");

    let vm = orch.get_vm("agents-0").unwrap();
    assert_eq!(vm.state, VMState::Saved);

    let leased = orch.acquire_vm(&pool_id, "task-1").unwrap();
    assert_eq!(leased.name, "agents-0");
    assert_eq!(leased.current_agent_id, Some("task-1".to_string()));

    // The caller resumes the leased VM.
    let name = orch.resume_vm_begin(&leased.id).unwrap();
    assert_eq!(name, "agents-0");
    orch.resume_vm_started(&leased.id, 1_700_000_000_000);
    orch.record_vm_ready(&leased.id, "192.168.1.51").unwrap();

    let vm = orch.get_vm("agents-0").unwrap();
    assert_eq!(vm.state, VMState::Running);
    assert_eq!(vm.ip_address, Some("192.168.1.51".to_string()));
    assert!(vm.last_resumed_at.is_some());
}

#[test]
fn test_acquire_exhausted_pool() {
    // Scenario: the only VM is already leased; a second acquisition fails
    // with NoVMAvailable.
    let (mut orch, _t, pool_id, vm_id) = setup();
    prepare(&mut orch, &vm_id, "192.168.1.50");

    orch.acquire_vm(&pool_id, "task-1").unwrap();
    let second = orch.acquire_vm(&pool_id, "task-2");
    assert!(matches!(second, Err(Error::NoVMAvailable)));
}

#[test]
fn test_release_fast_path() {
    // Scenario: after a release without reset, the VM is saved and its
    // lease is cleared.
    let (mut orch, _t, pool_id, vm_id) = setup();
    prepare(&mut orch, &vm_id, "192.168.1.50");
    let leased = orch.acquire_vm(&pool_id, "task-1").unwrap();
    orch.resume_vm_begin(&leased.id).unwrap();
    orch.resume_vm_started(&leased.id, 1_700_000_000_000);
    orch.record_vm_ready(&leased.id, "192.168.1.51").unwrap();

    // Fast release: save, which also clears the lease.
    orch.save_vm_begin(&leased.id).unwrap();
    orch.save_vm_finish(&leased.id);
    orch.release_lease(&leased.id);

    let vm = orch.get_vm("agents-0").unwrap();
    assert_eq!(vm.state, VMState::Saved);
    assert_eq!(vm.current_agent_id, None);

    // The VM is acquirable again.
    assert!(orch.acquire_vm(&pool_id, "task-2").is_ok());
}

#[test]
fn test_release_reset_path() {
    // Scenario: a release with reset restores the clean checkpoint and then
    // re-prepares, leaving the VM saved with the clean checkpoint in place.
    let (mut orch, _t, pool_id, vm_id) = setup();
    prepare(&mut orch, &vm_id, "192.168.1.50");
    let leased = orch.acquire_vm(&pool_id, "task-1").unwrap();
    orch.resume_vm_begin(&leased.id).unwrap();
    orch.resume_vm_started(&leased.id, 1_700_000_000_000);
    orch.record_vm_ready(&leased.id, "192.168.1.51").unwrap();

    // Reset: power off, restore the checkpoint, clear lease and IP.
    let (name, was_running) = orch.reset_vm_begin(&leased.id).unwrap();
    assert_eq!(name, "agents-0");
    assert!(was_running);
    orch.reset_vm_finish(&leased.id);

    let vm = orch.get_vm("agents-0").unwrap();
    assert_eq!(vm.state, VMState::Off);
    assert_eq!(vm.current_agent_id, None);
    assert_eq!(vm.ip_address, None);

    // Re-prepare restores the warm invariant.
    prepare(&mut orch, &leased.id, "192.168.1.52");
    let vm = orch.get_vm("agents-0").unwrap();
    assert_eq!(vm.state, VMState::Saved);
}

#[test]
fn test_prepare_under_bad_precondition() {
    // Scenario: preparing a running VM is refused with the current and
    // expected states.
    let (mut orch, _t, _p, vm_id) = setup();
    prepare(&mut orch, &vm_id, "192.168.1.50");
    orch.resume_vm_begin(&vm_id).unwrap();
    orch.resume_vm_started(&vm_id, 1_700_000_000_000);

    let res = orch.prepare_vm_begin(&vm_id);
    match res {
        Err(Error::InvalidState { current, expected }) => {
            assert_eq!(current, "Running");
            assert_eq!(expected, "Off");
        }
        other => panic!("expected InvalidState, got {:?}", other),
    }
}

#[test]
fn test_resume_requires_saved() {
    let (mut orch, _t, _p, vm_id) = setup();
    // The VM is Off, not Saved.
    let res = orch.resume_vm_begin(&vm_id);
    match res {
        Err(Error::InvalidState { current, expected }) => {
            assert_eq!(current, "Off");
            assert_eq!(expected, "Saved");
        }
        other => panic!("expected InvalidState, got {:?}", other),
    }
}

#[test]
fn test_resume_missing_vm() {
    let orch = Orchestrator::new();
    let res = orch.resume_vm_begin("vm-missing");
    assert!(matches!(res, Err(Error::VMNotFound(_))));
}

#[test]
fn test_record_ready_empty_ip_marks_error() {
    let (mut orch, _t, _p, vm_id) = setup();
    prepare(&mut orch, &vm_id, "192.168.1.50");
    orch.resume_vm_begin(&vm_id).unwrap();
    orch.resume_vm_started(&vm_id, 1_700_000_000_000);

    let res = orch.record_vm_ready(&vm_id, "");
    assert!(matches!(res, Err(Error::NoIP)));
    let vm = orch.get_vm("agents-0").unwrap();
    assert_eq!(vm.state, VMState::Error);
    assert!(vm.error_message.is_some());
}

#[test]
fn test_failed_acquire_releases_lease() {
    // When the resume after a successful lease fails, the lease is released
    // before the error is surfaced; the VM is left in the error state.
    let (mut orch, _t, pool_id, vm_id) = setup();
    prepare(&mut orch, &vm_id, "192.168.1.50");

    let leased = orch.acquire_vm(&pool_id, "task-1").unwrap();
    orch.resume_vm_begin(&leased.id).unwrap();
    orch.resume_vm_started(&leased.id, 1_700_000_000_000);
    // The guest never became ready: the caller marks the VM failed and
    // releases the lease.
    orch.mark_vm_error(&leased.id, "resume timed out");
    orch.release_lease(&leased.id);

    let vm = orch.get_vm("agents-0").unwrap();
    assert_eq!(vm.state, VMState::Error);
    assert_eq!(vm.current_agent_id, None);
    assert_eq!(vm.error_message, Some("resume timed out".to_string()));
}

#[test]
fn test_reconcile_drift_heal() {
    // Scenario: the operator stops the VM outside the orchestrator; a
    // reconcile pass records the hypervisor's state.
    let (mut orch, _t, _p, vm_id) = setup();
    prepare(&mut orch, &vm_id, "192.168.1.50");
    let vm = orch.get_vm("agents-0").unwrap();
    assert_eq!(vm.state, VMState::Saved);

    let listing = vec![HyperVInfo {
        name: "agents-0".to_string(),
        state: 2,
        memory_assigned: None,
        uptime: None,
        id: None,
    }];
    orch.reconcile(&listing);

    let vm = orch.get_vm("agents-0").unwrap();
    assert_eq!(vm.state, VMState::Off);
}

#[test]
fn test_delete_vm_protocol() {
    let (mut orch, _t, _p, vm_id) = setup();
    let row = orch.delete_vm_begin(&vm_id).unwrap();
    assert_eq!(row.name, "agents-0");
    assert!(orch.delete_vm_finish(&vm_id));
    assert!(orch.get_vm("agents-0").is_none());
    assert!(!orch.delete_vm_finish(&vm_id));
}

#[test]
fn test_stop_vm_protocol() {
    let (mut orch, _t, _p, vm_id) = setup();
    prepare(&mut orch, &vm_id, "192.168.1.50");
    orch.resume_vm_begin(&vm_id).unwrap();
    orch.resume_vm_started(&vm_id, 1_700_000_000_000);

    let name = orch.stop_vm_begin(&vm_id).unwrap();
    assert_eq!(name, "agents-0");
    orch.stop_vm_finish(&vm_id);
    let vm = orch.get_vm("agents-0").unwrap();
    assert_eq!(vm.state, VMState::Off);
}

#[test]
fn test_pool_status_missing_pool() {
    let orch = Orchestrator::new();
    let res = orch.get_pool_status("pool-missing");
    assert!(matches!(res, Err(Error::PoolNotFound(_))));
}

#[test]
fn test_pool_status_buckets() {
    let (mut orch, _t, pool_id, vm_id) = setup();
    prepare(&mut orch, &vm_id, "192.168.1.50");

    let status = orch.get_pool_status(&pool_id).unwrap();
    assert_eq!(status.name, "agents");
    assert_eq!(status.desired_count, 1);
    assert_eq!(status.total_vms, 1);
    assert_eq!(status.saved_vms, 1);
    assert_eq!(status.running_vms, 0);
    assert_eq!(status.off_vms, 0);
    assert_eq!(status.error_vms, 0);
}

#[test]
fn test_provision_with_repeated_ids_conflicts() {
    let mut orch = Orchestrator::new();
    let template = Template::new("win11".to_string(), r"/tmpl/win11.vhdx".to_string());
    let template_id = orch.register_template(template, true).unwrap();
    let pool = VMPool::new("agents".to_string(), template_id).with_count(5);
    let pool_id = orch.create_pool(pool).unwrap();

    let ids = vec!["vm-dup".to_string(), "vm-dup".to_string()];
    let res = orch.provision_pool_with(&pool_id, 2, ids, 0);
    assert!(matches!(res, Err(Error::Conflict(_))));
    assert!(orch.list_vms().is_empty());
}

#[test]
fn test_reconcile_ignores_unknown_vms() {
    // VMs the hypervisor lists but the catalog does not know are ignored.
    let mut orch = Orchestrator::new();
    let listing = vec![HyperVInfo {
        name: "stranger".to_string(),
        state: 3,
        memory_assigned: None,
        uptime: None,
        id: None,
    }];
    orch.reconcile(&listing);
    assert!(orch.list_vms().is_empty());
}

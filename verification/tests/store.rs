use hvkube::hyperv::HyperVInfo;
use hvkube::models::template::Template;
use hvkube::models::pool::VMPool;
use hvkube::models::vm::{VMState, VM};
use hvkube::store::Database;
use hvkube::Error;

#[test]
fn test_database_in_memory() {
    let db = Database::in_memory();
    assert!(db.list_templates().is_empty());
}

#[test]
fn test_template_crud() {
    let mut db = Database::in_memory();

    let template = Template::new("win11".to_string(), r"C:\templates\win11.vhdx".to_string());
    db.insert_template(&template).unwrap();

    let loaded = db.get_template(&template.id).unwrap();
    assert_eq!(loaded.name, "win11");

    let templates = db.list_templates();
    assert_eq!(templates.len(), 1);

    let by_name = db.get_template_by_name("win11").unwrap();
    assert_eq!(by_name.id, template.id);

    db.delete_template(&template.id).unwrap();
    assert!(db.get_template(&template.id).is_none());
}

#[test]
fn test_pool_crud() {
    let mut db = Database::in_memory();

    let template = Template::new("win11".to_string(), r"C:\test.vhdx".to_string());
    db.insert_template(&template).unwrap();

    let pool = VMPool::new("agents".to_string(), template.id.clone()).with_count(3);
    db.insert_pool(&pool).unwrap();

    let loaded = db.get_pool(&pool.id).unwrap();
    assert_eq!(loaded.name, "agents");
    assert_eq!(loaded.desired_count, 3);

    assert_eq!(db.list_pools().len(), 1);

    let by_name = db.get_pool_by_name("agents").unwrap();
    assert_eq!(by_name.id, pool.id);
}

#[test]
fn test_vm_crud() {
    let mut db = Database::in_memory();

    let vm = VM::new("test-vm-1".to_string(), r"C:\vms\test.vhdx".to_string(), 4096, 2);
    db.insert_vm(&vm).unwrap();

    let loaded = db.get_vm(&vm.id).unwrap();
    assert_eq!(loaded.name, "test-vm-1");
    assert_eq!(loaded.state, VMState::Off);

    db.update_vm_state(&vm.id, VMState::Running);
    db.update_vm_ip(&vm.id, Some("192.168.1.100"));

    let updated = db.get_vm(&vm.id).unwrap();
    assert_eq!(updated.state, VMState::Running);
    assert_eq!(updated.ip_address, Some("192.168.1.100".to_string()));

    let by_name = db.get_vm_by_name("test-vm-1").unwrap();
    assert_eq!(by_name.id, vm.id);
}

#[test]
fn test_vm_pool_listing() {
    let mut db = Database::in_memory();

    let template = Template::new("win11".to_string(), r"C:\test.vhdx".to_string());
    db.insert_template(&template).unwrap();

    let pool = VMPool::new("agents".to_string(), template.id.clone());
    db.insert_pool(&pool).unwrap();

    for i in 0..3 {
        let mut vm = VM::new(
            format!("agent-{}", i),
            format!(r"C:\vms\agent-{}.vhdx", i),
            4096,
            2,
        );
        vm.pool_id = Some(pool.id.clone());
        db.insert_vm(&vm).unwrap();
    }

    let vms = db.list_vms_by_pool(&pool.id);
    assert_eq!(vms.len(), 3);
}

#[test]
fn test_find_available_vm() {
    let mut db = Database::in_memory();

    let template = Template::new("win11".to_string(), r"C:\test.vhdx".to_string());
    db.insert_template(&template).unwrap();

    let pool = VMPool::new("agents".to_string(), template.id.clone());
    db.insert_pool(&pool).unwrap();

    let mut vm = VM::new("agent-0".to_string(), r"C:\vms\agent-0.vhdx".to_string(), 4096, 2);
    vm.pool_id = Some(pool.id.clone());
    vm.state = VMState::Saved;
    db.insert_vm(&vm).unwrap();
    // Update state in the catalog
    db.update_vm_state(&vm.id, VMState::Saved);

    let available = db.find_available_vm_in_pool(&pool.id);
    assert!(available.is_some());
    assert_eq!(available.unwrap().id, vm.id);

    // Assign agent
    db.update_vm_agent(&vm.id, Some("agent-task-1"));
    let available = db.find_available_vm_in_pool(&pool.id);
    assert!(available.is_none());
}

#[test]
fn test_vm_name_unique() {
    // Exactly one VM can hold a given name.
    let mut db = Database::in_memory();
    let a = VM::new("worker".to_string(), r"C:\vms\a.vhdx".to_string(), 2048, 1);
    let b = VM::new("worker".to_string(), r"C:\vms\b.vhdx".to_string(), 2048, 1);
    db.insert_vm(&a).unwrap();
    let res = db.insert_vm(&b);
    assert!(matches!(res, Err(Error::Conflict(_))));
    assert_eq!(db.list_vms().len(), 1);
}

#[test]
fn test_template_name_unique() {
    let mut db = Database::in_memory();
    let a = Template::new("win11".to_string(), r"C:\a.vhdx".to_string());
    let b = Template::new("win11".to_string(), r"C:\b.vhdx".to_string());
    db.insert_template(&a).unwrap();
    assert!(matches!(db.insert_template(&b), Err(Error::Conflict(_))));
}

#[test]
fn test_delete_referenced_template_conflicts() {
    // Deleting a template still referenced by a pool fails with Conflict.
    let mut db = Database::in_memory();
    let template = Template::new("win11".to_string(), r"C:\t.vhdx".to_string());
    db.insert_template(&template).unwrap();
    let pool = VMPool::new("agents".to_string(), template.id.clone());
    db.insert_pool(&pool).unwrap();

    let res = db.delete_template(&template.id);
    assert!(matches!(res, Err(Error::Conflict(_))));
    assert!(db.get_template(&template.id).is_some());

    // Once the pool is gone the template can be deleted.
    assert!(db.delete_pool(&pool.id));
    assert_eq!(db.delete_template(&template.id).unwrap(), true);
    assert!(db.get_template(&template.id).is_none());
}

#[test]
fn test_insert_pool_requires_template() {
    let mut db = Database::in_memory();
    let pool = VMPool::new("agents".to_string(), "tmpl-missing".to_string());
    assert!(matches!(db.insert_pool(&pool), Err(Error::Conflict(_))));
}

#[test]
fn test_acquire_vm_in_pool_leases_atomically() {
    // The find-and-lease step marks the row leased in the same step that
    // returns it, so a second acquirer cannot receive the same VM.
    let mut db = Database::in_memory();
    let template = Template::new("win11".to_string(), r"C:\t.vhdx".to_string());
    db.insert_template(&template).unwrap();
    let pool = VMPool::new("agents".to_string(), template.id.clone());
    db.insert_pool(&pool).unwrap();

    let mut vm = VM::new("agents-0".to_string(), r"C:\vms\0.vhdx".to_string(), 4096, 2);
    vm.pool_id = Some(pool.id.clone());
    vm.state = VMState::Saved;
    db.insert_vm(&vm).unwrap();

    let leased = db.acquire_vm_in_pool(&pool.id, "task-1").unwrap();
    assert_eq!(leased.id, vm.id);
    assert_eq!(leased.current_agent_id, Some("task-1".to_string()));

    let second = db.acquire_vm_in_pool(&pool.id, "task-2");
    assert!(matches!(second, Err(Error::NoVMAvailable)));
}

#[test]
fn test_reconcile_states() {
    let mut db = Database::in_memory();
    let mut vm = VM::new("agents-0".to_string(), r"C:\vms\0.vhdx".to_string(), 4096, 2);
    vm.state = VMState::Saved;
    db.insert_vm(&vm).unwrap();
    let mut gone = VM::new("agents-1".to_string(), r"C:\vms\1.vhdx".to_string(), 4096, 2);
    gone.state = VMState::Running;
    gone.current_agent_id = Some("task-9".to_string());
    db.insert_vm(&gone).unwrap();

    // The hypervisor reports agents-0 as Off (raw code 2); agents-1 is gone.
    let listing = vec![HyperVInfo {
        name: "agents-0".to_string(),
        state: 2,
        memory_assigned: None,
        uptime: None,
        id: None,
    }];
    db.reconcile_states(&listing);

    let healed = db.get_vm(&vm.id).unwrap();
    assert_eq!(healed.state, VMState::Off);

    let missing = db.get_vm(&gone.id).unwrap();
    assert_eq!(missing.state, VMState::Error);
    assert_eq!(
        missing.error_message,
        Some("not present in hypervisor".to_string())
    );
    // Reconciliation never touches leases.
    assert_eq!(missing.current_agent_id, Some("task-9".to_string()));
}

#[test]
fn test_reconcile_idempotent() {
    let mut db = Database::in_memory();
    let mut vm = VM::new("agents-0".to_string(), r"C:\vms\0.vhdx".to_string(), 4096, 2);
    vm.state = VMState::Saved;
    db.insert_vm(&vm).unwrap();
    let other = VM::new("agents-1".to_string(), r"C:\vms\1.vhdx".to_string(), 4096, 2);
    db.insert_vm(&other).unwrap();

    let listing = vec![HyperVInfo {
        name: "agents-0".to_string(),
        state: 3,
        memory_assigned: None,
        uptime: None,
        id: None,
    }];
    db.reconcile_states(&listing);
    let once: Vec<(String, VMState, Option<String>)> = db
        .list_vms()
        .into_iter()
        .map(|v| (v.name, v.state, v.error_message))
        .collect();

    db.reconcile_states(&listing);
    let twice: Vec<(String, VMState, Option<String>)> = db
        .list_vms()
        .into_iter()
        .map(|v| (v.name, v.state, v.error_message))
        .collect();

    assert_eq!(once, twice);
}

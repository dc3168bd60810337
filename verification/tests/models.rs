use hvkube::models::agent::AgentStatus;
use hvkube::models::pool::{PoolStatus, VMPool};
use hvkube::models::template::{Template, TemplateConfig};
use hvkube::models::vm::{VMConfig, VMState, VM};

#[test]
fn test_vm_state_from_hyperv() {
    assert_eq!(VMState::from_hyperv_state(2), VMState::Off);
    assert_eq!(VMState::from_hyperv_state(3), VMState::Running);
    assert_eq!(VMState::from_hyperv_state(6), VMState::Saved);
    assert_eq!(VMState::from_hyperv_state(9), VMState::Paused);
    assert_eq!(VMState::from_hyperv_state(999), VMState::Error);
}

#[test]
fn test_vm_state_display() {
    assert_eq!(VMState::Off.as_str(), "Off");
    assert_eq!(VMState::Running.as_str(), "Running");
    assert_eq!(VMState::Saved.as_str(), "Saved");
}

#[test]
fn test_vm_state_raw_round_trip() {
    let states = [
        VMState::Off,
        VMState::Running,
        VMState::Saved,
        VMState::Paused,
        VMState::Error,
    ];
    for s in states {
        assert_eq!(VMState::from_hyperv_state(s.to_hyperv_state()), s);
    }
}

#[test]
fn test_vm_new() {
    let vm = VM::new("test-vm".to_string(), "C:\test.vhdx".to_string(), 4096, 2);
    assert!(vm.id.starts_with("vm-"));
    assert_eq!(vm.id.chars().count(), 39);
    assert_eq!(vm.name, "test-vm");
    assert_eq!(vm.state, VMState::Off);
    assert_eq!(vm.memory_mb, 4096);
    assert_eq!(vm.cpu_count, 2);
    assert!(vm.ip_address.is_none());
}

#[test]
fn test_vm_is_available() {
    let mut vm = VM::new("test-vm".to_string(), "C:\test.vhdx".to_string(), 4096, 2);

    // Off VM is not available
    assert!(!vm.is_available());

    // Saved VM without agent is available
    vm.state = VMState::Saved;
    assert!(vm.is_available());

    // Saved VM with agent is not available
    vm.current_agent_id = Some("agent-1".to_string());
    assert!(!vm.is_available());
}

#[test]
fn test_vm_config_builder() {
    let config = VMConfig::new("my-vm".to_string())
        .template("tmpl-123".to_string())
        .pool("pool-456".to_string())
        .memory_mb(8192)
        .cpu_count(4)
        .gpu(true);

    assert_eq!(config.name, "my-vm");
    assert_eq!(config.template_id, Some("tmpl-123".to_string()));
    assert_eq!(config.pool_id, Some("pool-456".to_string()));
    assert_eq!(config.memory_mb, 8192);
    assert_eq!(config.cpu_count, 4);
    assert!(config.gpu_enabled);
}

#[test]
fn test_template_new_defaults() {
    let t = Template::new("win11".to_string(), r"C:\templates\win11.vhdx".to_string());
    assert!(t.id.starts_with("tmpl-"));
    assert_eq!(t.name, "win11");
    assert_eq!(t.memory_mb, 4096);
    assert_eq!(t.cpu_count, 2);
    assert!(!t.gpu_enabled);
    assert!(t.installed_software.is_empty());
    assert!(t.description.is_none());
}

#[test]
fn test_template_builder() {
    let t = Template::new("win11-chrome".to_string(), r"C:\templates\win11.vhdx".to_string())
        .with_memory(8192)
        .with_cpus(4)
        .with_gpu(true)
        .with_software(vec!["Chrome".into(), "Node.js".into()])
        .with_description("Windows 11 with Chrome".to_string());

    assert_eq!(t.memory_mb, 8192);
    assert_eq!(t.cpu_count, 4);
    assert!(t.gpu_enabled);
    assert_eq!(t.installed_software.len(), 2);
    assert_eq!(t.description, Some("Windows 11 with Chrome".to_string()));
}

#[test]
fn test_template_config() {
    let cfg = TemplateConfig::new("win11".to_string(), r"C:\test.vhdx".to_string());
    assert_eq!(cfg.memory_mb, 4096);
    assert_eq!(cfg.cpu_count, 2);
}

#[test]
fn test_pool_new_defaults() {
    let p = VMPool::new("agents".to_string(), "tmpl-123".to_string());
    assert!(p.id.starts_with("pool-"));
    assert_eq!(p.name, "agents");
    assert_eq!(p.template_id, "tmpl-123");
    assert_eq!(p.desired_count, 3);
    assert_eq!(p.warm_count, 1);
    assert_eq!(p.max_per_host, 10);
}

#[test]
fn test_pool_builder() {
    let p = VMPool::new("large-pool".to_string(), "tmpl-456".to_string())
        .with_count(10)
        .with_warm_count(3)
        .with_max_per_host(5);

    assert_eq!(p.desired_count, 10);
    assert_eq!(p.warm_count, 3);
    assert_eq!(p.max_per_host, 5);
}

#[test]
fn test_pool_status() {
    let status = PoolStatus {
        id: "pool-1".to_string(),
        name: "agents".to_string(),
        template_id: "tmpl-1".to_string(),
        desired_count: 5,
        total_vms: 5,
        running_vms: 1,
        saved_vms: 3,
        off_vms: 1,
        error_vms: 0,
    };

    assert_eq!(
        status.running_vms + status.saved_vms + status.off_vms + status.error_vms,
        5
    );
}

#[test]
fn test_agent_status_display() {
    assert_eq!(AgentStatus::Pending.as_str(), "Pending");
    assert_eq!(AgentStatus::Running.as_str(), "Running");
    assert_eq!(AgentStatus::Completed.as_str(), "Completed");
    assert_eq!(AgentStatus::Failed.as_str(), "Failed");
}

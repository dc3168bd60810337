use hvkube::config::SandboxConfig;
use hvkube::pool::PooledSandboxStatus;
use hvkube::Error;
use hvkube::hvsocket::{service_ids, HvSocketAddr};
use hvkube::hyperv::{escape_ps, HyperVInfo};
use hvkube::network::NetworkConfig;
use hvkube::pool::{Pool, PoolConfig};
use hvkube::sandbox::SandboxState;

#[test]
fn test_config_builder() {
    let config = SandboxConfig::builder()
        .name("test-sandbox".to_string())
        .memory_mb(8192)
        .cpu_count(4)
        .gpu_enabled(true)
        .build();

    assert_eq!(config.name, "test-sandbox");
    assert_eq!(config.memory_mb, 8192);
    assert_eq!(config.cpu_count, 4);
    assert!(config.gpu_enabled);
}

#[test]
fn test_config_validation() {
    let config = SandboxConfig::builder().build();
    assert!(config.validate().is_err());

    let config = SandboxConfig::builder().name("test".to_string()).memory_mb(100).build();
    assert!(config.validate().is_err());

    let config = SandboxConfig::builder().name("test".to_string()).build();
    assert!(config.validate().is_ok());
}

#[test]
fn test_config_map_folder() {
    let config = SandboxConfig::builder()
        .name("test".to_string())
        .map_folder(r"C:\Host".to_string(), r"C:\Sandbox".to_string(), true)
        .build();

    assert_eq!(config.mapped_folders.len(), 1);
    assert_eq!(config.mapped_folders[0].host_path, r"C:\Host");
    assert_eq!(config.mapped_folders[0].sandbox_path, r"C:\Sandbox");
    assert!(config.mapped_folders[0].read_only);
}

#[test]
fn test_hvsocket_addr() {
    let addr = HvSocketAddr::agent("12345678-1234-1234-1234-123456789abc".to_string());
    assert_eq!(addr.service_id, service_ids::AGENT);
}

#[test]
fn test_escape_ps() {
    assert_eq!(escape_ps("test"), "test");
    assert_eq!(escape_ps("test's"), "test''s");
}

#[test]
fn test_hyperv_info_state_str() {
    let info = HyperVInfo {
        name: "agents-0".to_string(),
        state: 6,
        memory_assigned: Some(4096),
        uptime: None,
        id: None,
    };
    assert_eq!(info.state_str(), "Saved");
    let off = HyperVInfo { state: 2, ..info.clone() };
    assert_eq!(off.state_str(), "Off");
    let unknown = HyperVInfo { state: 42, ..info };
    assert_eq!(unknown.state_str(), "Unknown");
}

#[test]
fn test_network_config_default() {
    let config = NetworkConfig::default();
    assert!(config.nat_enabled);
    assert!(!config.subnet.is_empty());
}

#[test]
fn test_pool_config() {
    let sandbox_config = SandboxConfig::builder().name("test".to_string()).build();
    let pool_config = PoolConfig::new("test-pool".to_string(), sandbox_config)
        .min_warm(3)
        .max_total(10);

    assert_eq!(pool_config.name, "test-pool");
    assert_eq!(pool_config.min_warm, 3);
    assert_eq!(pool_config.max_total, 10);
}

#[test]
fn pool_test_pool_status() {
    let sandbox_config = SandboxConfig::builder().name("test".to_string()).build();
    let pool_config = PoolConfig::new("test-pool".to_string(), sandbox_config);
    let pool = Pool::new(pool_config, "C:\\Test".to_string());

    let status = pool.status();
    assert_eq!(status.total, 0);
    assert_eq!(status.available, 0);
}

#[test]
fn test_pool_acquire_release_cycle() {
    let sandbox_config = SandboxConfig::builder().name("worker".to_string()).build();
    let pool_config = PoolConfig::new("workers".to_string(), sandbox_config).min_warm(1);
    let mut pool = Pool::new(pool_config, "C:\\Pools".to_string());

    assert_eq!(pool.warm_needed(), 1);
    pool.add_warming("workers-abc".to_string()).unwrap();
    assert_eq!(pool.warm_needed(), 0);
    // The same sandbox cannot be pooled twice.
    assert!(matches!(
        pool.add_warming("workers-abc".to_string()),
        Err(Error::Conflict(_))
    ));

    pool.mark_available("workers-abc", "vm-123".to_string());
    let sb = pool.acquire("task-1").unwrap();
    assert_eq!(sb.status, PooledSandboxStatus::Acquired);
    assert_eq!(sb.acquired_by, Some("task-1".to_string()));
    assert_eq!(sb.vm_id, Some("vm-123".to_string()));

    // Nothing left to acquire.
    assert!(matches!(pool.acquire("task-2"), Err(Error::NoSandboxAvailable)));

    pool.release(&sb.id);
    let status = pool.status();
    assert_eq!(status.available, 1);
    assert_eq!(status.acquired, 0);

    let removed = pool.remove_entry(&sb.id).unwrap();
    assert_eq!(removed.name, "workers-abc");
    assert_eq!(pool.status().total, 0);
}

#[test]
fn test_sandbox_state_display() {
    assert_eq!(SandboxState::Running.as_str(), "Running");
    assert_eq!(SandboxState::Stopped.as_str(), "Stopped");
}

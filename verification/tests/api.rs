use hvkube::api;
use hvkube::models::template::Template;
use hvkube::models::vm::{VMState, VM};
use hvkube::Error;

#[test]
fn test_error_kind_tokens() {
    assert_eq!(Error::VMNotFound("x".to_string()).kind_token(), "NotFound");
    assert_eq!(Error::TemplateNotFound("x".to_string()).kind_token(), "NotFound");
    assert_eq!(Error::PoolNotFound("x".to_string()).kind_token(), "NotFound");
    assert_eq!(Error::NoVMAvailable.kind_token(), "NoVMAvailable");
    assert_eq!(
        Error::InvalidState { current: "Off".to_string(), expected: "Saved".to_string() }
            .kind_token(),
        "InvalidState"
    );
    assert_eq!(Error::Timeout.kind_token(), "Timeout");
    assert_eq!(Error::PowerShell("boom".to_string()).kind_token(), "HypervisorError");
    assert_eq!(Error::Conflict("dup".to_string()).kind_token(), "Conflict");
    assert_eq!(Error::BadRequest("bad".to_string()).kind_token(), "BadRequest");
    assert_eq!(Error::Other("eh".to_string()).kind_token(), "Internal");
}

#[test]
fn test_error_http_status() {
    assert_eq!(Error::VMNotFound("x".to_string()).http_status(), 404);
    assert_eq!(Error::NoVMAvailable.http_status(), 503);
    assert_eq!(
        Error::InvalidState { current: "Off".to_string(), expected: "Saved".to_string() }
            .http_status(),
        409
    );
    assert_eq!(Error::Timeout.http_status(), 504);
    assert_eq!(Error::PowerShell("boom".to_string()).http_status(), 500);
    assert_eq!(Error::Conflict("dup".to_string()).http_status(), 409);
    assert_eq!(Error::BadRequest("bad".to_string()).http_status(), 400);
    assert_eq!(Error::Config("bad".to_string()).http_status(), 400);
    assert_eq!(Error::Other("eh".to_string()).http_status(), 500);
}

#[test]
fn test_error_debug() {
    let e = Error::Timeout;
    let debug = format!("{:?}", e);
    assert!(debug.contains("Timeout"));
}

#[test]
fn test_mcp_endpoint_of() {
    assert_eq!(api::mcp_endpoint_of("192.168.1.50"), "http://192.168.1.50:8080/mcp");
}

#[test]
fn test_defaults() {
    assert_eq!(api::default_memory(), 4096);
    assert_eq!(api::default_cpus(), 2);
    assert_eq!(api::default_count(), 3);
    assert_eq!(api::default_warm(), 1);
    assert_eq!(api::default_provision_count(), 1);
}

#[test]
fn test_template_to_response_renders_timestamp() {
    let mut t = Template::new("win11".to_string(), r"C:\t.vhdx".to_string());
    t.created_at = 0;
    let r = api::template_to_response(&t);
    assert_eq!(r.name, "win11");
    assert_eq!(r.created_at, "1970-01-01T00:00:00+00:00");
}

#[test]
fn test_vm_to_response() {
    let mut vm = VM::new("agents-0".to_string(), r"C:\v.vhdx".to_string(), 4096, 2);
    vm.state = VMState::Saved;
    vm.created_at = 1_000;
    vm.last_resumed_at = Some(86_400_000);
    let r = api::vm_to_response(&vm);
    assert_eq!(r.name, "agents-0");
    assert_eq!(r.state, "Saved");
    assert_eq!(r.created_at, "1970-01-01T00:00:01+00:00");
    assert_eq!(r.last_resumed_at, Some("1970-01-02T00:00:00+00:00".to_string()));
}

#[test]
fn test_health_response() {
    let h = api::health_response("0.1.0".to_string());
    assert_eq!(h.status, "ok");
    assert_eq!(h.version, "0.1.0");
}

#[test]
fn test_u64_to_string() {
    assert_eq!(hvkube::decimal::u64_to_string(0), "0");
    assert_eq!(hvkube::decimal::u64_to_string(7), "7");
    assert_eq!(hvkube::decimal::u64_to_string(42), "42");
    assert_eq!(hvkube::decimal::u64_to_string(1000), "1000");
    assert_eq!(hvkube::decimal::u64_to_string(u64::MAX), "18446744073709551615");
}

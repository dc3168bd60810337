//! The HTTP surface's data shapes and the verified mapping onto them.
//!
//! Request and response bodies are plain structs here; the surrounding
//! binary owns their wire encoding and hands the decoded values in. The
//! conversions from domain rows to response shapes, the default values the
//! requests fall back to, and the error-to-status mapping are all verified.

use vstd::prelude::*;

use crate::models::pool::{PoolStatus, VMPool};
use crate::models::template::Template;
use crate::models::vm::{state_label, VM};
use crate::strutil;
use crate::trusted;

verus! {

// === Templates ===

/// Body of a template registration request.
#[derive(Debug, Clone)]
pub struct CreateTemplateRequest {
    pub name: String,
    pub vhdx_path: String,
    pub memory_mb: u64,
    pub cpu_count: u32,
    pub gpu_enabled: bool,
    pub description: Option<String>,
}

/// A template as the API reports it.
#[derive(Debug, Clone)]
pub struct TemplateResponse {
    pub id: String,
    pub name: String,
    pub vhdx_path: String,
    pub memory_mb: u64,
    pub cpu_count: u32,
    pub gpu_enabled: bool,
    pub description: Option<String>,
    pub created_at: String,
}

// === Pools ===

/// Body of a pool creation request.
#[derive(Debug, Clone)]
pub struct CreatePoolRequest {
    pub name: String,
    pub template_name: String,
    pub desired_count: usize,
    pub warm_count: usize,
}

/// A pool as the API reports it.
#[derive(Debug, Clone)]
pub struct PoolResponse {
    pub id: String,
    pub name: String,
    pub template_id: String,
    pub desired_count: usize,
    pub warm_count: usize,
    pub created_at: String,
}

/// Pool membership bucketed by state, as the API reports it.
#[derive(Debug, Clone)]
pub struct PoolStatusResponse {
    pub id: String,
    pub name: String,
    pub template_id: String,
    pub desired_count: usize,
    pub total_vms: usize,
    pub running_vms: usize,
    pub saved_vms: usize,
    pub off_vms: usize,
    pub error_vms: usize,
}

/// Body of a provision request.
#[derive(Debug, Clone)]
pub struct ProvisionRequest {
    pub count: usize,
}

// === VMs ===

/// A VM as the API reports it.
#[derive(Debug, Clone)]
pub struct VMResponse {
    pub id: String,
    pub name: String,
    pub template_id: Option<String>,
    pub pool_id: Option<String>,
    pub state: String,
    pub ip_address: Option<String>,
    pub memory_mb: u64,
    pub cpu_count: u32,
    pub gpu_enabled: bool,
    pub created_at: String,
    pub last_resumed_at: Option<String>,
}

/// What a successful resume or acquisition reports.
#[derive(Debug, Clone)]
pub struct ResumeResponse {
    pub vm_id: String,
    pub vm_name: String,
    pub ip_address: String,
    pub mcp_endpoint: String,
    pub resume_time_ms: u64,
}

/// Body of an acquisition request.
#[derive(Debug, Clone)]
pub struct AcquireVMRequest {
    pub pool_name: String,
}

/// Body of a release request.
#[derive(Debug, Clone)]
pub struct ReleaseVMRequest {
    pub reset: bool,
}

// === Generic ===

/// An error as the API reports it: a stable kind token and a message.
#[derive(Debug, Clone)]
pub struct ApiError {
    pub error: String,
    pub message: String,
}

/// A plain success message.
#[derive(Debug, Clone)]
pub struct ApiSuccess {
    pub message: String,
}

/// The liveness report.
#[derive(Debug, Clone)]
pub struct HealthResponse {
    pub status: String,
    pub version: String,
}

// === Defaults that request bodies fall back to ===

pub fn default_memory() -> (r: u64)
    ensures
        r == 4096,
{
    4096
}

pub fn default_cpus() -> (r: u32)
    ensures
        r == 2,
{
    2
}

pub fn default_count() -> (r: usize)
    ensures
        r == 3,
{
    3
}

pub fn default_warm() -> (r: usize)
    ensures
        r == 1,
{
    1
}

pub fn default_provision_count() -> (r: usize)
    ensures
        r == 1,
{
    1
}

// === Conversions ===

/// The response shape of a template row.
pub fn template_to_response(t: &Template) -> (r: TemplateResponse)
    ensures
        r.id@ == t@.id,
        r.name@ == t@.name,
        r.vhdx_path@ == t@.vhdx_path,
        r.memory_mb == t@.memory_mb,
        r.cpu_count == t@.cpu_count,
        r.gpu_enabled == t@.gpu_enabled,
        r.description.deep_view() == t@.description,
        r.created_at@ == trusted::rfc3339_of(t@.created_at),
{
    TemplateResponse {
        id: strutil::s_clone(&t.id),
        name: strutil::s_clone(&t.name),
        vhdx_path: strutil::s_clone(&t.vhdx_path),
        memory_mb: t.memory_mb,
        cpu_count: t.cpu_count,
        gpu_enabled: t.gpu_enabled,
        description: strutil::opt_clone(&t.description),
        created_at: trusted::format_rfc3339(t.created_at),
    }
}

/// The response shape of a pool row.
pub fn pool_to_response(p: &VMPool) -> (r: PoolResponse)
    ensures
        r.id@ == p@.id,
        r.name@ == p@.name,
        r.template_id@ == p@.template_id,
        r.desired_count == p@.desired_count,
        r.warm_count == p@.warm_count,
        r.created_at@ == trusted::rfc3339_of(p@.created_at),
{
    PoolResponse {
        id: strutil::s_clone(&p.id),
        name: strutil::s_clone(&p.name),
        template_id: strutil::s_clone(&p.template_id),
        desired_count: p.desired_count,
        warm_count: p.warm_count,
        created_at: trusted::format_rfc3339(p.created_at),
    }
}

/// The response shape of a pool status.
pub fn pool_status_to_response(st: &PoolStatus) -> (r: PoolStatusResponse)
    ensures
        r.id@ == st.id@,
        r.name@ == st.name@,
        r.template_id@ == st.template_id@,
        r.desired_count == st.desired_count,
        r.total_vms == st.total_vms,
        r.running_vms == st.running_vms,
        r.saved_vms == st.saved_vms,
        r.off_vms == st.off_vms,
        r.error_vms == st.error_vms,
{
    PoolStatusResponse {
        id: strutil::s_clone(&st.id),
        name: strutil::s_clone(&st.name),
        template_id: strutil::s_clone(&st.template_id),
        desired_count: st.desired_count,
        total_vms: st.total_vms,
        running_vms: st.running_vms,
        saved_vms: st.saved_vms,
        off_vms: st.off_vms,
        error_vms: st.error_vms,
    }
}

/// The response shape of a VM row: the state as its stable token, the
/// timestamps rendered.
pub fn vm_to_response(v: &VM) -> (r: VMResponse)
    ensures
        r.id@ == v@.id,
        r.name@ == v@.name,
        r.template_id.deep_view() == v@.template_id,
        r.pool_id.deep_view() == v@.pool_id,
        r.state@ == state_label(v@.state),
        r.ip_address.deep_view() == v@.ip_address,
        r.memory_mb == v@.memory_mb,
        r.cpu_count == v@.cpu_count,
        r.gpu_enabled == v@.gpu_enabled,
        r.created_at@ == trusted::rfc3339_of(v@.created_at),
        r.last_resumed_at is Some <==> v@.last_resumed_at is Some,
        v@.last_resumed_at is Some ==> (r.last_resumed_at->Some_0)@ == trusted::rfc3339_of(
            v@.last_resumed_at->Some_0,
        ),
{
    VMResponse {
        id: strutil::s_clone(&v.id),
        name: strutil::s_clone(&v.name),
        template_id: strutil::opt_clone(&v.template_id),
        pool_id: strutil::opt_clone(&v.pool_id),
        state: strutil::s(v.state.as_str()),
        ip_address: strutil::opt_clone(&v.ip_address),
        memory_mb: v.memory_mb,
        cpu_count: v.cpu_count,
        gpu_enabled: v.gpu_enabled,
        created_at: trusted::format_rfc3339(v.created_at),
        last_resumed_at: match v.last_resumed_at {
            Some(t) => Some(trusted::format_rfc3339(t)),
            None => None,
        },
    }
}

/// The in-guest agent endpoint that a resume reports for an IP.
pub fn mcp_endpoint_of(ip: &str) -> (r: String)
    ensures
        r@ == "http://"@ + ip@ + ":8080/mcp"@,
{
    let mut r = strutil::s("http://");
    r.append(ip);
    r.append(":8080/mcp");
    r
}

/// The liveness report for a server version.
pub fn health_response(version: String) -> (r: HealthResponse)
    ensures
        r.status@ == "ok"@,
        r.version == version,
{
    HealthResponse { status: strutil::s("ok"), version }
}

} // verus!

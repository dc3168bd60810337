//! Structured failure kinds used across the orchestrator.

use vstd::prelude::*;

verus! {

/// Everything that can go wrong while driving templates, pools and VMs.
///
/// Each variant carries plain data only; the HTTP layer maps a variant to a
/// stable kind token and a status code through [`Error::kind_token`] and
/// [`Error::http_status`].
#[derive(Debug, Clone, PartialEq, Eq)]
pub enum Error {
    /// The hypervisor adapter reported a non-zero status.
    PowerShell(String),
    /// No VM resolves to the given id or name.
    VMNotFound(String),
    /// A VM with the given name already exists.
    VMAlreadyExists(String),
    /// No template resolves to the given id or name.
    TemplateNotFound(String),
    /// No pool resolves to the given id or name.
    PoolNotFound(String),
    /// Acquisition found no leasable VM in the pool.
    NoVMAvailable,
    /// The warm pool held no available sandbox.
    NoSandboxAvailable,
    /// A precondition on the current VM state failed.
    InvalidState { current: String, expected: String },
    /// A bounded wait expired.
    Timeout,
    /// The VM reported no IP address.
    NoIP,
    /// The in-guest agent did not answer.
    GuestNotResponding,
    /// The host lacks the memory the request needs.
    InsufficientMemory { required: u64, available: u64 },
    /// A value could not be parsed.
    Parse(String),
    /// The hypervisor feature is not enabled on this host.
    HyperVNotAvailable,
    /// A uniqueness or reference constraint was violated.
    Conflict(String),
    /// A sandbox configuration failed validation.
    Config(String),
    /// The request itself is malformed or out of bounds.
    BadRequest(String),
    /// Host-guest socket communication failed.
    HvSocket(String),
    /// Network configuration failed.
    Network(String),
    /// Unclassified failure.
    Other(String),
}

/// The stable kind token that the HTTP surface reports for an error.
pub open spec fn error_kind(e: Error) -> Seq<char> {
    match e {
        Error::VMNotFound(_) => "NotFound"@,
        Error::TemplateNotFound(_) => "NotFound"@,
        Error::PoolNotFound(_) => "NotFound"@,
        Error::NoVMAvailable => "NoVMAvailable"@,
        Error::NoSandboxAvailable => "NoVMAvailable"@,
        Error::InvalidState { .. } => "InvalidState"@,
        Error::Timeout => "Timeout"@,
        Error::PowerShell(_) => "HypervisorError"@,
        Error::HyperVNotAvailable => "HypervisorError"@,
        Error::VMAlreadyExists(_) => "Conflict"@,
        Error::Conflict(_) => "Conflict"@,
        Error::Config(_) => "BadRequest"@,
        Error::Parse(_) => "BadRequest"@,
        Error::BadRequest(_) => "BadRequest"@,
        Error::NoIP => "Internal"@,
        Error::GuestNotResponding => "Internal"@,
        Error::InsufficientMemory { .. } => "Internal"@,
        Error::HvSocket(_) => "Internal"@,
        Error::Network(_) => "Internal"@,
        Error::Other(_) => "Internal"@,
    }
}

/// The HTTP status code that belongs to an error kind.
pub open spec fn error_status(e: Error) -> u16 {
    match e {
        Error::VMNotFound(_) => 404,
        Error::TemplateNotFound(_) => 404,
        Error::PoolNotFound(_) => 404,
        Error::NoVMAvailable => 503,
        Error::NoSandboxAvailable => 503,
        Error::InvalidState { .. } => 409,
        Error::Timeout => 504,
        Error::PowerShell(_) => 500,
        Error::HyperVNotAvailable => 500,
        Error::VMAlreadyExists(_) => 409,
        Error::Conflict(_) => 409,
        Error::Config(_) => 400,
        Error::Parse(_) => 400,
        Error::BadRequest(_) => 400,
        Error::NoIP => 500,
        Error::GuestNotResponding => 500,
        Error::InsufficientMemory { .. } => 500,
        Error::HvSocket(_) => 500,
        Error::Network(_) => 500,
        Error::Other(_) => 500,
    }
}

impl Error {
    /// The stable kind token for this error, as the error taxonomy defines it.
    pub fn kind_token(&self) -> (r: &'static str)
        ensures
            r@ == error_kind(*self),
    {
        match self {
            Error::VMNotFound(_) => "NotFound",
            Error::TemplateNotFound(_) => "NotFound",
            Error::PoolNotFound(_) => "NotFound",
            Error::NoVMAvailable => "NoVMAvailable",
            Error::NoSandboxAvailable => "NoVMAvailable",
            Error::InvalidState { .. } => "InvalidState",
            Error::Timeout => "Timeout",
            Error::PowerShell(_) => "HypervisorError",
            Error::HyperVNotAvailable => "HypervisorError",
            Error::VMAlreadyExists(_) => "Conflict",
            Error::Conflict(_) => "Conflict",
            Error::Config(_) => "BadRequest",
            Error::Parse(_) => "BadRequest",
            Error::BadRequest(_) => "BadRequest",
            Error::NoIP => "Internal",
            Error::GuestNotResponding => "Internal",
            Error::InsufficientMemory { .. } => "Internal",
            Error::HvSocket(_) => "Internal",
            Error::Network(_) => "Internal",
            Error::Other(_) => "Internal",
        }
    }

    /// The HTTP status code for this error.
    pub fn http_status(&self) -> (r: u16)
        ensures
            r == error_status(*self),
    {
        match self {
            Error::VMNotFound(_) => 404,
            Error::TemplateNotFound(_) => 404,
            Error::PoolNotFound(_) => 404,
            Error::NoVMAvailable => 503,
            Error::NoSandboxAvailable => 503,
            Error::InvalidState { .. } => 409,
            Error::Timeout => 504,
            Error::PowerShell(_) => 500,
            Error::HyperVNotAvailable => 500,
            Error::VMAlreadyExists(_) => 409,
            Error::Conflict(_) => 409,
            Error::Config(_) => 400,
            Error::Parse(_) => 400,
            Error::BadRequest(_) => 400,
            Error::NoIP => 500,
            Error::GuestNotResponding => 500,
            Error::InsufficientMemory { .. } => 500,
            Error::HvSocket(_) => 500,
            Error::Network(_) => 500,
            Error::Other(_) => 500,
        }
    }
}

} // verus!

//! A lightweight orchestrator for Windows virtual machines used as ephemeral
//! worker environments.
//!
//! The library keeps pools of pre-booted VMs in saved state and hands them out
//! on demand: templates describe golden disk images, pools describe how many
//! clones of a template to keep, and the orchestrator drives each VM through
//! its lifecycle (provision, prepare, fast resume, acquire/release, reconcile).
//!
//! All side effects on real VMs go through a hypervisor adapter that the
//! surrounding binary supplies; the library holds the catalog, validates every
//! command against it, and commits the outcome of each hypervisor step.

pub mod api;
pub mod config;
pub mod decimal;
pub mod error;
pub mod hvsocket;
pub mod hyperv;
pub mod laws;
pub mod models;
pub mod network;
pub mod orchestrator;
pub mod pool;
pub mod sandbox;
pub mod scheduler;
pub mod store;
pub mod strutil;
pub mod trusted;

pub use error::Error;

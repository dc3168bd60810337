//! Sandbox configuration with a builder.

use vstd::prelude::*;

use crate::error::Error;
use crate::strutil;

verus! {

/// The hardware and device shape of one sandbox.
#[derive(Debug, Clone)]
pub struct SandboxConfig {
    pub name: String,
    pub memory_mb: u64,
    pub cpu_count: u32,
    pub gpu_enabled: bool,
    pub networking_enabled: bool,
    pub mapped_folders: Vec<MappedFolder>,
    pub clipboard_enabled: bool,
    pub audio_enabled: bool,
    pub printer_enabled: bool,
    pub startup_command: Option<String>,
    pub writable_layer_path: Option<String>,
    pub base_layer_path: Option<String>,
    pub sandbox_layer_path: Option<String>,
}

/// A host directory mapped into the sandbox.
#[derive(Debug, Clone)]
pub struct MappedFolder {
    pub host_path: String,
    pub sandbox_path: String,
    pub read_only: bool,
}

/// What a sandbox configuration must satisfy: a name, at least 512 MB of
/// memory, and at least one CPU.
pub open spec fn sandbox_config_valid(c: SandboxConfig) -> bool {
    c.name@.len() > 0 && c.memory_mb >= 512 && c.cpu_count >= 1
}

impl Default for SandboxConfig {
    /// The stock shape: nameless, 4096 MB, 2 CPUs, GPU and networking on.
    fn default() -> (r: Self)
        ensures
            r.name@.len() == 0,
            r.memory_mb == 4096,
            r.cpu_count == 2,
            r.gpu_enabled,
            r.networking_enabled,
            r.mapped_folders@.len() == 0,
            r.clipboard_enabled,
            !r.audio_enabled,
            !r.printer_enabled,
            r.startup_command is None,
            r.writable_layer_path is None,
            r.base_layer_path is None,
            r.sandbox_layer_path is None,
    {
        SandboxConfig {
            name: String::new(),
            memory_mb: 4096,
            cpu_count: 2,
            gpu_enabled: true,
            networking_enabled: true,
            mapped_folders: Vec::new(),
            clipboard_enabled: true,
            audio_enabled: false,
            printer_enabled: false,
            startup_command: None,
            writable_layer_path: None,
            base_layer_path: None,
            sandbox_layer_path: None,
        }
    }
}

impl SandboxConfig {
    /// A builder starting from the stock shape.
    pub fn builder() -> (r: SandboxConfigBuilder)
        ensures
            r.config.name@.len() == 0,
            r.config.memory_mb == 4096,
            r.config.cpu_count == 2,
            r.config.gpu_enabled,
            r.config.networking_enabled,
            r.config.mapped_folders@.len() == 0,
            r.config.startup_command is None,
    {
        SandboxConfigBuilder { config: SandboxConfig::default() }
    }

    /// Check the configuration. Succeeds exactly when the name is non-empty,
    /// the memory is at least 512 MB and there is at least one CPU.
    pub fn validate(&self) -> (r: Result<(), Error>)
        ensures
            r is Ok <==> sandbox_config_valid(*self),
            r matches Err(e) ==> e is Config,
    {
        if self.name.unicode_len() == 0 {
            return Err(Error::Config(strutil::s("name cannot be empty")));
        }
        if self.memory_mb < 512 {
            return Err(Error::Config(strutil::s("memory must be at least 512MB")));
        }
        if self.cpu_count < 1 {
            return Err(Error::Config(strutil::s("cpu_count must be at least 1")));
        }
        Ok(())
    }
}

/// Builder for [`SandboxConfig`].
#[derive(Debug, Clone)]
pub struct SandboxConfigBuilder {
    pub config: SandboxConfig,
}

impl SandboxConfigBuilder {
    pub fn name(self, name: String) -> (r: Self)
        ensures
            r.config == (SandboxConfig { name: name, ..self.config }),
    {
        SandboxConfigBuilder { config: SandboxConfig { name, ..self.config } }
    }

    pub fn memory_mb(self, mb: u64) -> (r: Self)
        ensures
            r.config == (SandboxConfig { memory_mb: mb, ..self.config }),
    {
        SandboxConfigBuilder { config: SandboxConfig { memory_mb: mb, ..self.config } }
    }

    pub fn cpu_count(self, count: u32) -> (r: Self)
        ensures
            r.config == (SandboxConfig { cpu_count: count, ..self.config }),
    {
        SandboxConfigBuilder { config: SandboxConfig { cpu_count: count, ..self.config } }
    }

    pub fn gpu_enabled(self, enabled: bool) -> (r: Self)
        ensures
            r.config == (SandboxConfig { gpu_enabled: enabled, ..self.config }),
    {
        SandboxConfigBuilder { config: SandboxConfig { gpu_enabled: enabled, ..self.config } }
    }

    pub fn networking_enabled(self, enabled: bool) -> (r: Self)
        ensures
            r.config == (SandboxConfig { networking_enabled: enabled, ..self.config }),
    {
        SandboxConfigBuilder {
            config: SandboxConfig { networking_enabled: enabled, ..self.config },
        }
    }

    /// Map a host directory into the sandbox.
    pub fn map_folder(self, host: String, sandbox: String, read_only: bool) -> (r: Self)
        ensures
            r.config.mapped_folders@ == self.config.mapped_folders@.push(
                (MappedFolder { host_path: host, sandbox_path: sandbox, read_only: read_only }),
            ),
            r.config.name == self.config.name,
            r.config.memory_mb == self.config.memory_mb,
            r.config.cpu_count == self.config.cpu_count,
            r.config.gpu_enabled == self.config.gpu_enabled,
            r.config.networking_enabled == self.config.networking_enabled,
            r.config.clipboard_enabled == self.config.clipboard_enabled,
            r.config.audio_enabled == self.config.audio_enabled,
            r.config.printer_enabled == self.config.printer_enabled,
            r.config.startup_command == self.config.startup_command,
            r.config.writable_layer_path == self.config.writable_layer_path,
            r.config.base_layer_path == self.config.base_layer_path,
            r.config.sandbox_layer_path == self.config.sandbox_layer_path,
    {
        let mut config = self.config;
        config.mapped_folders.push(
            MappedFolder { host_path: host, sandbox_path: sandbox, read_only },
        );
        SandboxConfigBuilder { config }
    }

    pub fn startup_command(self, cmd: String) -> (r: Self)
        ensures
            r.config == (SandboxConfig { startup_command: Some(cmd), ..self.config }),
    {
        SandboxConfigBuilder { config: SandboxConfig { startup_command: Some(cmd), ..self.config } }
    }

    /// The configuration as built.
    pub fn build(self) -> (r: SandboxConfig)
        ensures
            r == self.config,
    {
        self.config
    }

    /// The configuration as built, after checking it.
    pub fn build_validated(self) -> (r: Result<SandboxConfig, Error>)
        ensures
            r is Ok <==> sandbox_config_valid(self.config),
            r matches Ok(c) ==> c == self.config,
            r matches Err(e) ==> e is Config,
    {
        let config = self.build();
        match config.validate() {
            Ok(()) => Ok(config),
            Err(e) => Err(e),
        }
    }
}

} // verus!

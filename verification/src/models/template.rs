//! Template model: golden images for VM creation.

use vstd::prelude::*;

use crate::strutil;
use crate::trusted;

verus! {

/// The mathematical value of a [`Template`] row.
pub struct TemplateModel {
    pub id: Seq<char>,
    pub name: Seq<char>,
    pub vhdx_path: Seq<char>,
    pub memory_mb: u64,
    pub cpu_count: u32,
    pub gpu_enabled: bool,
    pub installed_software: Seq<Seq<char>>,
    pub created_at: i64,
    pub description: Option<Seq<char>>,
}

/// A VM template (golden image).
#[derive(Debug)]
pub struct Template {
    /// Unique identifier.
    pub id: String,
    /// Human-readable name.
    pub name: String,
    /// Path to the immutable base disk.
    pub vhdx_path: String,
    /// Default memory for VMs from this template.
    pub memory_mb: u64,
    /// Default CPU count.
    pub cpu_count: u32,
    /// Whether GPU is supported.
    pub gpu_enabled: bool,
    /// Software pre-installed in this template.
    pub installed_software: Vec<String>,
    /// Creation time, milliseconds since the Unix epoch.
    pub created_at: i64,
    /// Description.
    pub description: Option<String>,
}

impl View for Template {
    type V = TemplateModel;

    open spec fn view(&self) -> TemplateModel {
        TemplateModel {
            id: self.id@,
            name: self.name@,
            vhdx_path: self.vhdx_path@,
            memory_mb: self.memory_mb,
            cpu_count: self.cpu_count,
            gpu_enabled: self.gpu_enabled,
            installed_software: self.installed_software.deep_view(),
            created_at: self.created_at,
            description: self.description.deep_view(),
        }
    }
}

impl DeepView for Template {
    type V = TemplateModel;

    open spec fn deep_view(&self) -> TemplateModel {
        self.view()
    }
}

impl Clone for Template {
    /// A copy with the same mathematical value.
    fn clone(&self) -> (r: Self)
        ensures
            r@ == self@,
    {
        Template {
            id: strutil::s_clone(&self.id),
            name: strutil::s_clone(&self.name),
            vhdx_path: strutil::s_clone(&self.vhdx_path),
            memory_mb: self.memory_mb,
            cpu_count: self.cpu_count,
            gpu_enabled: self.gpu_enabled,
            installed_software: strutil::vec_clone(&self.installed_software),
            created_at: self.created_at,
            description: strutil::opt_clone(&self.description),
        }
    }
}

impl Template {
    /// A fresh template with the default hardware shape and a newly minted
    /// `tmpl-` id.
    pub fn new(name: String, vhdx_path: String) -> (r: Self)
        ensures
            r@.id.len() == 41,
            r@.id.subrange(0, 5) == "tmpl-"@,
            r@.name == name@,
            r@.vhdx_path == vhdx_path@,
            r@.memory_mb == 4096,
            r@.cpu_count == 2,
            !r@.gpu_enabled,
            r@.installed_software == Seq::<Seq<char>>::empty(),
            r@.description is None,
    {
        proof {
            reveal_strlit("tmpl-");
        }
        let software: Vec<String> = Vec::new();
        assert(software.deep_view() =~= Seq::<Seq<char>>::empty());
        Template {
            id: trusted::prefixed_uuid("tmpl-"),
            name,
            vhdx_path,
            memory_mb: 4096,
            cpu_count: 2,
            gpu_enabled: false,
            installed_software: software,
            created_at: trusted::now_millis(),
            description: None,
        }
    }

    pub fn with_memory(self, mb: u64) -> (r: Self)
        ensures
            r == (Template { memory_mb: mb, ..self }),
    {
        Template { memory_mb: mb, ..self }
    }

    pub fn with_cpus(self, count: u32) -> (r: Self)
        ensures
            r == (Template { cpu_count: count, ..self }),
    {
        Template { cpu_count: count, ..self }
    }

    pub fn with_gpu(self, enabled: bool) -> (r: Self)
        ensures
            r == (Template { gpu_enabled: enabled, ..self }),
    {
        Template { gpu_enabled: enabled, ..self }
    }

    pub fn with_software(self, software: Vec<String>) -> (r: Self)
        ensures
            r == (Template { installed_software: software, ..self }),
    {
        Template { installed_software: software, ..self }
    }

    pub fn with_description(self, desc: String) -> (r: Self)
        ensures
            r == (Template { description: Some(desc), ..self }),
    {
        Template { description: Some(desc), ..self }
    }
}

/// Builder for template registration.
#[derive(Debug, Clone)]
pub struct TemplateConfig {
    pub name: String,
    pub vhdx_path: String,
    pub memory_mb: u64,
    pub cpu_count: u32,
    pub gpu_enabled: bool,
    pub installed_software: Vec<String>,
    pub description: Option<String>,
}

impl TemplateConfig {
    /// A registration request with the default hardware shape.
    pub fn new(name: String, vhdx_path: String) -> (r: Self)
        ensures
            r.name == name,
            r.vhdx_path == vhdx_path,
            r.memory_mb == 4096,
            r.cpu_count == 2,
            !r.gpu_enabled,
            r.installed_software@ == Seq::<String>::empty(),
            r.description is None,
    {
        let software: Vec<String> = Vec::new();
        assert(software@ =~= Seq::<String>::empty());
        TemplateConfig {
            name,
            vhdx_path,
            memory_mb: 4096,
            cpu_count: 2,
            gpu_enabled: false,
            installed_software: software,
            description: None,
        }
    }
}

} // verus!

//! Verified decision logic for bootstrapping a headless GPU compute context:
//! accelerator selection, the ordered bootstrap sequence and its teardown.
//!
//! The native calls themselves are made by the caller: a [`Bootstrap`] names
//! each step as an [`Action`], takes its outcome back as an [`Event`], and ends
//! with an [`Engine`] that records every handle the context owns.

mod bootstrap;
mod diagnostics;
mod engine;
mod select;
mod version;

pub use bootstrap::{
    Action, BootError, Bootstrap, BufferRole, DeviceFeatures, Event, Stage, BUFFER_SIZE, STORAGE_BINDINGS,
};
pub use diagnostics::{
    severity_color, SEVERITY_ERROR, SEVERITY_INFO, SEVERITY_VERBOSE, SEVERITY_WARNING,
};
pub use engine::{Engine, Release, ResourceKind, NULL_HANDLE};
pub use select::{
    find_compute_family, find_host_coherent_memory_type, score, select_accelerator, Accelerator,
    AcceleratorClass, MEMORY_HOST_COHERENT_BIT, MEMORY_HOST_VISIBLE_BIT, QUEUE_COMPUTE_BIT,
};
pub use version::{engine_version, instance_api_version};

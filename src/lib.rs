//! Host-side plugin model: manifest validation, host API selection, plugin
//! assembly and envelope delivery, with their contracts proved by Verus.
pub mod envelope;
pub mod error;
pub mod host_api;
pub mod manifests;
pub mod plugin;
pub mod queue;
pub mod registrar;
pub mod text;
pub mod version;

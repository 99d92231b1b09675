//! Core of an embedded script-execution runtime: an execution context that
//! dispatches native calls issued by a guest script, a fixed-capacity transfer
//! ring buffer that batches small call payloads across the native/script
//! boundary, a handle table that names native resources by integer identity,
//! and a worker model that runs further contexts with bounded message channels
//! to a parent.

pub mod bindings;
pub mod compiler;
pub mod errors;
pub mod handles;
pub mod io;
pub mod isolate;
pub mod net;
pub mod permissions;
pub mod plugins;
pub mod registry;
pub mod resources;
pub mod state;
pub mod workers;
pub mod ring;

//! Orchestration core of an APK re-packing tool: the workspace naming, the
//! executable resolver's decisions, the run's validation and the staged
//! pipeline as a state machine, with the guard that runs a cleanup on scope exit.

pub mod scope_guard;
pub mod paths;
pub mod pipeline;
pub mod laws;
pub mod resolver;

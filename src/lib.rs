//! Orchestration core of an evaluation worker: the run status state machine,
//! failure classification, and the routing of evaluation results to storage.
pub mod eval;
pub mod status;
pub mod classify;
pub mod consumer;
pub mod router;
pub mod error;
pub mod ids;
pub mod settings;
pub mod project;
pub mod harness;
pub mod object_store;

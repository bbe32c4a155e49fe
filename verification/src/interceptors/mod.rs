//! Workflow interceptors: chains of hooks around the operations of a workflow.

pub mod chain;
pub mod input_laws;
pub mod instance;
pub mod instance_laws;
pub mod types;

//! Workflow-task logic of a Temporal worker: history chunking, the host bridge, interceptor chains
//! and the guest-side workflow instance.

pub mod bridge;
pub mod history;
pub mod interceptors;
pub mod pollers;
pub mod runtime;
pub mod status;
pub mod text;

//! Guest-side execution of one workflow.

pub mod activation;
pub mod handlers;
pub mod host;
pub mod host_laws;
pub mod instance;
pub mod laws;
pub mod model;
pub mod polling;
pub mod record_laws;

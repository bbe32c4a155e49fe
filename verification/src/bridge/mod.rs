//! The bridge between a synchronous host and the asynchronous worker core.
//!
//! The host drives the core: it starts operations, takes their results, and serves the gRPC requests
//! that the core queues.

pub mod abi;
pub mod abi_laws;
pub mod config;
pub mod config_laws;
pub mod headers;
pub mod init_laws;
pub mod metadata;
pub mod metadata_laws;
pub mod operation_laws;
pub mod operations;
pub mod state;
pub mod state_laws;
pub mod transport;
pub mod transport_laws;

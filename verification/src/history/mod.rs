//! History events, how they are cut into logical workflow tasks, and how they are fetched.

pub mod buffer;
pub mod buffer_laws;
pub mod chunker;
pub mod chunking;
pub mod chunking_v1;
pub mod chunking_v1_laws;
pub mod chunking_v2;
pub mod chunking_v2_laws;
pub mod event;
pub mod extraction;
pub mod laws;
pub mod paginator;
pub mod paging_laws;

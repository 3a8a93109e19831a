//! Lifecycle engine for governance applications: the allocation request
//! model, the lifecycle state machine, the application aggregate, the
//! optimistic-concurrency document store model and the application directory.

pub mod allocation;
pub mod application;
pub mod directory;
pub mod engine;
pub mod error;
pub mod pull_request;
pub mod store;

//! Supervision of an out-of-process engine: restart policy, lifecycle state
//! machine, request correlation, permission gating, binary lookup, provider
//! selection and event routing.

pub mod backoff;
pub mod binary;
pub mod catalog;
pub mod config;
pub mod discovery;
pub mod event_bus;
pub mod permissions;
pub mod providers;
pub mod reliability;
pub mod rpc;
pub mod supervisor;
pub mod text;
pub mod types;

//! A small CRUD book service, split into verified request logic and the
//! I/O shell around it.
//!
//! The library holds everything the service decides: configuration
//! assembly, identifier parsing and rendering, the per-endpoint decision
//! functions that turn database outcomes into HTTP statuses and bodies,
//! and an in-memory store model that runs those same decisions end to end.

pub mod config;
pub mod handlers;
pub mod laws;
pub mod models;
pub mod oid;
pub mod store;

//! Event-sourced deployment lifecycle with a separate read model.
//!
//! A deployment is never stored as a mutable row: its state is the fold of an
//! append-only event log, commands are validated against that state, and
//! readers are served from a projection kept by the query side.

pub mod deployment;
pub mod dispatcher;
pub mod event_store;
pub mod laws;
pub mod queries;
pub mod status;

//! Core logic of an input-source switching daemon.
//!
//! The daemon keeps the active keyboard input source in sync with whichever
//! application currently has focus, remembering each application's last-used
//! input source. This crate holds the verified core: the per-application
//! input-source store, the two de-duplicating consumer state machines that
//! drive it, and the process-set reconciliation used to decide which
//! applications to observe. The platform glue (notification subscriptions,
//! accessibility lookups, the actual input-source system calls) lives outside
//! the library and feeds it plain values.

pub mod cmd;
pub mod controller;
pub mod error;
pub mod service;
pub mod store;
pub mod tracker;

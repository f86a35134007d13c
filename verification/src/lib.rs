//! An in-process event-routing runtime: configured modules are wired into a
//! pipeline by static routes and exchange events over per-module mailboxes.
//!
//! The crate holds the decisions of that runtime: how a module reads its
//! configuration, how routes become sender registrations, and how every
//! module moves through its lifecycle. Background execution contexts are
//! named by numbers; whoever drives the pipeline spawns and cancels them as
//! the returned directives say.

pub mod channel;
pub mod config;
pub mod drain;
pub mod event;
pub mod file_in;
pub mod file_out;
pub mod laws;
pub mod module;
pub mod pipeline;
pub mod registry;
pub mod wiring;

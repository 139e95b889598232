//! Keeps a pool of browser tabs healthy: tracks how long each tab has shown
//! the same URL, recycles tabs that have stalled, and keeps blank tabs
//! available as landing spots for new work.
//!
//! The crate decides; it performs no I/O. A driver fetches the list of open
//! tabs, hands it to the library, and carries out the actions it gets back.

pub mod action;
pub mod attempt;
pub mod config;
pub mod focus;
pub mod json;
pub mod launch;
pub mod laws;
pub mod lemmas;
pub mod metadata;
pub mod model;
pub mod reconcile;
pub mod remote;
pub mod scheduler;
pub mod snapshot;
pub mod tab;

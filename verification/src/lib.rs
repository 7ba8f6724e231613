//! Core logic of a self-detaching background poller that periodically fetches
//! a log blob from a privileged producer and appends it to a size-bounded,
//! rotating log file.
//!
//! Everything that decides — the one-shot startup guard, the interval
//! configuration, the rotation-and-append storage protocol, the poll cycle,
//! and the detachment protocol's control decisions — lives here and is
//! verified. The surrounding process does the actual fetching, forking and
//! file I/O, and hands the outcomes of those steps to these functions.

pub mod config;
pub mod detach;
pub mod diag;
pub mod guard;
pub mod paths;
pub mod poller;
pub mod store;

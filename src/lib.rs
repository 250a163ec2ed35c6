//! An ICMP echo ("ping") client library: the probe loop's decisions, the
//! statistics it accumulates, host-resolution decisions and probe
//! configuration, each with a verified contract. Sockets, timers and name
//! lookups are driven by the caller, which hands the results back.

pub mod outcome;
pub mod stats;
pub mod config;
pub mod error;
pub mod probe_loop;
pub mod resolve;

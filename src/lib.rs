//! Peer-to-peer throughput benchmark: the wire protocol that moves the
//! announced bytes, the per-connection request correlation, the registry of
//! connected peers, and the human-readable formatting of sizes and rates.

pub mod units;
pub mod perf;
pub mod client;
pub mod server;
pub mod service;
pub mod options;

//! The requesting side: per-connection request correlation and the registry
//! of connected peers.

pub mod behaviour;
pub mod handler;

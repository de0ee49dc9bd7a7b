//! The accepting side: every inbound benchmark stream runs the server role of
//! the wire protocol; outcomes are only counted, never reported to a caller.

pub mod behaviour;
pub mod handler;

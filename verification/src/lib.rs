//! Client library for a real-time gateway protocol: a long-lived WebSocket
//! session that authenticates, heartbeats, receives a multiplexed stream of
//! typed events, and can resume after a dropped connection. The connection
//! lifecycle, liveness protocol, sequence tracking and the per-guild voice
//! handshake are verified; the surrounding I/O lives outside this crate.

pub mod dispatch;
pub mod error;
pub mod gateway;
pub mod json;
pub mod model;
pub mod registry;
pub mod strings;
pub mod voice;

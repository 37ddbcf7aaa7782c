//! Verified core of a LAN peer-to-peer file-sharing daemon.
//!
//! The library holds the daemon's logic: the peer table fed by UDP
//! discovery, the length-framed transfer protocol's sender and receiver
//! state machines, the transfer registry with its bounded history, the
//! WebSocket session dispatcher, and the broadcast fan-out coordinator.
//! All I/O (sockets, files, the WebSocket server) lives outside; the
//! functions here compute decisions and state transitions from plain
//! values handed in by the runtime.

pub mod broadcast;
pub mod config;
pub mod discovery;
pub mod hashing;
pub mod history;
pub mod peer;
pub mod platform;
pub mod protocol;
pub mod session;
pub mod transfer;
pub mod util;

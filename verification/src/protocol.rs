//! The typed request/response protocol spoken over the WebSocket, and
//! the records it carries.
//!
//! These are the bare values; turning them into JSON frames (and back)
//! is the runtime's business. Ids are 128-bit UUID values, timestamps
//! plain seconds.

use vstd::prelude::*;

use crate::peer::Peer;

verus! {

/// Direction of a transfer as seen from this daemon.
#[derive(Clone, Copy, Debug, PartialEq, Eq, Structural)]
pub enum TransferDirection {
    Sent,
    Received,
}

/// Lifecycle state of a transfer record.
#[derive(Clone, Copy, Debug, PartialEq, Eq, Structural)]
pub enum TransferStatus {
    InProgress,
    Paused,
    Completed,
    Failed,
    Cancelled,
}

impl TransferStatus {
    /// A status that ends a transfer; such records live in the
    /// completed history, never in the active map.
    pub open spec fn is_terminal(self) -> bool {
        self == TransferStatus::Completed || self == TransferStatus::Failed
            || self == TransferStatus::Cancelled
    }
}

/// What a UI client can ask of the daemon.
#[derive(Debug)]
pub enum ClientMessage {
    GetPeers,
    SendFile { peer_id: u128, file_path: String },
    SendDirectory { peer_id: u128, dir_path: String },
    BroadcastFile { file_path: String },
    BroadcastDirectory { dir_path: String },
    GetLocalInfo,
    SendChat { peer_id: Option<u128>, message: String },
    GetTransferHistory,
    GetTransferStats { transfer_id: u128 },
    CancelTransfer { transfer_id: u128 },
    PauseTransfer { transfer_id: u128 },
    ResumeTransfer { transfer_id: u128 },
    Ping,
}

/// A peer as reported to UI clients.
#[derive(Debug)]
pub struct PeerInfo {
    pub id: u128,
    pub address: String,
    pub hostname: String,
}

impl PeerInfo {
    /// The report for one peer record.
    pub fn of_peer(p: &Peer) -> (r: PeerInfo)
        ensures
            r.id == p.id,
            r.address@ == p.address@,
            r.hostname@ == p.hostname@,
    {
        PeerInfo { id: p.id, address: p.address.clone(), hostname: p.hostname.clone() }
    }
}

/// One line of the transfer history as reported to UI clients.
#[derive(Debug)]
pub struct TransferHistoryEntry {
    pub transfer_id: u128,
    pub peer_id: Option<u128>,
    pub peer_hostname: String,
    pub filename: String,
    pub file_size: u64,
    pub direction: TransferDirection,
    pub status: TransferStatus,
    pub timestamp: u64,
    pub duration_seconds: Option<u64>,
    pub speed_bytes_per_sec: Option<u64>,
}

/// What the daemon says to UI clients: synchronous replies and
/// asynchronous notifications alike.
#[derive(Debug)]
pub enum ServerMessage {
    PeersList {
        peers: Vec<PeerInfo>,
    },
    LocalInfo {
        peer_id: u128,
        hostname: String,
    },
    PeerDiscovered {
        peer: PeerInfo,
    },
    PeerRemoved {
        peer_id: u128,
    },
    FileTransferRequest {
        transfer_id: u128,
        peer_id: u128,
        filename: String,
        file_path: String,
        file_size: u64,
        file_checksum: Option<String>,
        mime_type: Option<String>,
    },
    FileTransferProgress {
        transfer_id: u128,
        progress: u64,
        total: u64,
        speed_bytes_per_sec: Option<u64>,
        eta_seconds: Option<u64>,
    },
    FileTransferComplete {
        transfer_id: u128,
        peer_id: Option<u128>,
        file_checksum: Option<String>,
        verified: bool,
    },
    FileTransferError {
        transfer_id: u128,
        peer_id: Option<u128>,
        message: String,
    },
    BroadcastTransferStart {
        transfer_id: u128,
        filename: String,
        file_path: String,
        file_size: u64,
        total_peers: usize,
        file_checksum: Option<String>,
        mime_type: Option<String>,
    },
    BroadcastTransferProgress {
        transfer_id: u128,
        completed_peers: usize,
        total_peers: usize,
    },
    BroadcastTransferComplete {
        transfer_id: u128,
        successful_peers: usize,
        failed_peers: usize,
    },
    ChatMessage {
        from_peer_id: u128,
        from_hostname: String,
        to_peer_id: Option<u128>,
        message: String,
        timestamp: u64,
    },
    TransferHistory {
        transfers: Vec<TransferHistoryEntry>,
    },
    TransferStats {
        transfer_id: u128,
        status: TransferStatus,
        progress: u64,
        total: u64,
        speed_bytes_per_sec: Option<u64>,
        eta_seconds: Option<u64>,
        start_time: Option<u64>,
    },
    TransferCancelled {
        transfer_id: u128,
    },
    TransferPaused {
        transfer_id: u128,
    },
    TransferResumed {
        transfer_id: u128,
    },
    Pong,
    Error {
        message: String,
    },
}

} // verus!

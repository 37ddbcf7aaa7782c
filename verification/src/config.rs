//! Daemon configuration: ports, broadcast cadence, and transfer tuning.
//!
//! Reading and writing the TOML file is the runtime's business; the
//! library only defines the configuration record and its defaults.

use vstd::prelude::*;

verus! {

/// UDP port the discovery service binds and broadcasts on.
pub const DEFAULT_DISCOVERY_PORT: u16 = 7878;

/// TCP port the transfer listener binds on.
pub const DEFAULT_TRANSFER_PORT: u16 = 7879;

/// HTTP port serving the WebSocket endpoint.
pub const DEFAULT_WEB_PORT: u16 = 3030;

/// Seconds between two discovery advertisements.
pub const DEFAULT_BROADCAST_INTERVAL: u64 = 2;

/// Bytes carried by one transfer protocol chunk.
pub const DEFAULT_CHUNK_SIZE: usize = 65536;

/// Transfer permits shared by senders and receivers.
pub const DEFAULT_MAX_CONCURRENT: usize = 5;

#[derive(Clone, Debug)]
pub struct NetworkConfig {
    pub discovery_port: u16,
    pub transfer_port: u16,
    pub web_port: u16,
    pub broadcast_interval: u64,
}

#[derive(Clone, Debug)]
pub struct TransferConfig {
    pub chunk_size: usize,
    pub max_concurrent: usize,
}

#[derive(Clone, Debug)]
pub struct UiConfig {
    pub theme: String,
}

#[derive(Clone, Debug)]
pub struct AppConfig {
    pub network: NetworkConfig,
    pub transfer: TransferConfig,
    pub ui: UiConfig,
}

impl AppConfig {
    /// A configuration is usable only if the chunk size and the permit
    /// pool are positive; a zero in either would stall every transfer.
    pub open spec fn wf(self) -> bool {
        &&& self.transfer.chunk_size > 0
        &&& self.transfer.max_concurrent > 0
        &&& self.network.broadcast_interval > 0
    }
}

impl Default for AppConfig {
    /// The defaults written to a fresh `config.toml`.
    fn default() -> (c: AppConfig)
        ensures
            c.network.discovery_port == DEFAULT_DISCOVERY_PORT,
            c.network.transfer_port == DEFAULT_TRANSFER_PORT,
            c.network.web_port == DEFAULT_WEB_PORT,
            c.network.broadcast_interval == DEFAULT_BROADCAST_INTERVAL,
            c.transfer.chunk_size == DEFAULT_CHUNK_SIZE,
            c.transfer.max_concurrent == DEFAULT_MAX_CONCURRENT,
            c.ui.theme@ == "dark"@,
            c.wf(),
    {
        AppConfig {
            network: NetworkConfig {
                discovery_port: DEFAULT_DISCOVERY_PORT,
                transfer_port: DEFAULT_TRANSFER_PORT,
                web_port: DEFAULT_WEB_PORT,
                broadcast_interval: DEFAULT_BROADCAST_INTERVAL,
            },
            transfer: TransferConfig {
                chunk_size: DEFAULT_CHUNK_SIZE,
                max_concurrent: DEFAULT_MAX_CONCURRENT,
            },
            ui: UiConfig { theme: String::from_str("dark") },
        }
    }
}

} // verus!

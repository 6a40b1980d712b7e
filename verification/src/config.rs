//! The node's configuration file.

use vstd::prelude::*;

verus! {

/// The Midnight node to follow.
#[derive(Debug)]
pub struct NodeConfig {
    pub ws_url: String,
}

/// Where the stores live.
#[derive(Debug)]
pub struct StorageConfig {
    pub path: String,
}

/// Where the REST API listens: an IPv4 address and a port.
#[derive(Clone, Copy, Debug)]
pub struct ApiConfig {
    pub listen_ip: [u8; 4],
    pub listen_port: u16,
}

/// The node's configuration.
#[derive(Debug)]
pub struct MidnightConfig {
    pub node: NodeConfig,
    pub storage: StorageConfig,
    pub api: ApiConfig,
}

impl MidnightConfig {
    /// A local node at `ws://localhost:9944`, stores under `./midnight-data`,
    /// and the API on `0.0.0.0:3001`.
    pub fn default() -> (c: Self)
        ensures
            c.node.ws_url@ == "ws://localhost:9944"@,
            c.storage.path@ == "./midnight-data"@,
            c.api.listen_ip@ == seq![0u8, 0u8, 0u8, 0u8],
            c.api.listen_port == 3001,
    {
        let ip = [0u8; 4];
        assert(ip@ =~= seq![0u8, 0u8, 0u8, 0u8]);
        MidnightConfig {
            node: NodeConfig { ws_url: String::from_str("ws://localhost:9944") },
            storage: StorageConfig { path: String::from_str("./midnight-data") },
            api: ApiConfig { listen_ip: ip, listen_port: 3001 },
        }
    }
}

} // verus!

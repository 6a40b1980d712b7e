//! Arguments of the `midnight-sync` command.

use vstd::prelude::*;

verus! {

/// Arguments of the `midnight-sync` command.
#[derive(Debug)]
pub struct Args {
    /// Substrate JSON-RPC HTTP endpoint of the Midnight node.
    pub rpc_url: String,
    /// The midnight-sync config file, if one is given.
    pub config: Option<String>,
}

/// The endpoint used when none is given.
pub fn default_rpc_url() -> (r: String)
    ensures
        r@ == "http://localhost:9944"@,
{
    String::from_str("http://localhost:9944")
}

} // verus!

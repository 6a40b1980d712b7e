//! Arguments of the `midnight` command.

use vstd::prelude::*;

verus! {

/// The config file that `midnight init` and `midnight daemon` use by default.
pub fn default_config_path() -> (r: String)
    ensures
        r@ == "dolos-midnight.toml"@,
{
    String::from_str("dolos-midnight.toml")
}

/// Arguments of `midnight init`.
#[derive(Debug)]
pub struct InitArgs {
    pub config: String,
}

/// Arguments of `midnight daemon`.
#[derive(Debug)]
pub struct DaemonArgs {
    pub config: String,
}

/// The `midnight` subcommands.
#[derive(Debug)]
pub enum MidnightCommand {
    /// Write the default configuration.
    Init(InitArgs),
    /// Run the indexer.
    Daemon(DaemonArgs),
}

/// Arguments of the `midnight` command.
#[derive(Debug)]
pub struct MidnightArgs {
    pub command: MidnightCommand,
}

/// What `midnight init` does with the config path.
#[derive(Clone, Copy, Debug, PartialEq, Eq, Structural)]
pub enum InitAction {
    /// The file exists: say so and leave it.
    KeepExisting,
    /// Write the default configuration to it.
    WriteDefault,
}

/// Decides what `midnight init` does: an existing config is never overwritten.
pub fn init_action(config_exists: bool) -> (r: InitAction)
    ensures
        r == (if config_exists { InitAction::KeepExisting } else { InitAction::WriteDefault }),
{
    if config_exists { InitAction::KeepExisting } else { InitAction::WriteDefault }
}

} // verus!

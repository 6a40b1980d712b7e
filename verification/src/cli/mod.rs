//! The command-line arguments of the node's commands.

pub mod daemon;
pub mod midnight;
pub mod midnight_sync;
pub mod tui;

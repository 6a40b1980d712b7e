//! Arguments of the `daemon` command.

use vstd::prelude::*;

verus! {

/// Arguments of the `daemon` command.
#[derive(Clone, Copy, Debug)]
pub struct Args {
    /// Show the terminal UI.
    pub tui: bool,
}

} // verus!

//! The decisions of the terminal UI shown by `daemon --tui`: which key
//! presses end it, and when it stops because the node is shutting down.

use vstd::prelude::*;

verus! {

/// A key press as the terminal UI sees it.
#[derive(Clone, Copy, Debug, PartialEq, Eq, Structural)]
pub enum TuiKey {
    /// A character key.
    Char(char),
    /// The escape key.
    Esc,
    /// Any other key.
    Other,
}

/// What the terminal UI does after one round of drawing and polling.
#[derive(Clone, Copy, Debug, PartialEq, Eq, Structural)]
pub enum TuiStep {
    /// The user asked to quit: cancel the node's exit token and stop.
    CancelAndStop,
    /// The node is shutting down: stop.
    Stop,
    /// Draw again.
    Continue,
}

/// Whether a key press asks to quit: `q` or escape.
pub open spec fn quits(key: TuiKey) -> bool {
    key == TuiKey::Char('q') || key == TuiKey::Esc
}

/// The step after a round in which `key` was pressed (or none was), with
/// `cancelled` telling whether the node's exit token was cancelled.
pub fn tui_step(key: Option<TuiKey>, cancelled: bool) -> (r: TuiStep)
    ensures
        (key matches Some(k) && quits(k)) ==> r == TuiStep::CancelAndStop,
        !(key matches Some(k) && quits(k)) && cancelled ==> r == TuiStep::Stop,
        !(key matches Some(k) && quits(k)) && !cancelled ==> r == TuiStep::Continue,
{
    match key {
        Some(TuiKey::Char(c)) => {
            if c == 'q' {
                return TuiStep::CancelAndStop;
            }
        },
        Some(TuiKey::Esc) => {
            return TuiStep::CancelAndStop;
        },
        _ => {},
    }
    if cancelled {
        TuiStep::Stop
    } else {
        TuiStep::Continue
    }
}

} // verus!

//! Points on the chain, the events that announce a new tip, and the errors
//! of chain logic.

use vstd::prelude::*;

verus! {

/// A slot number (for Midnight, the block number).
pub type BlockSlot = u64;

/// A position on the chain.
#[derive(Clone, Copy, Debug)]
pub enum ChainPoint {
    /// Before the first block.
    Origin,
    /// A slot whose block hash is not known.
    Slot(u64),
    /// A slot and the hash of its block.
    Specific(u64, [u8; 32]),
}

/// A change of the chain's tip, as announced to subscribers.
#[derive(Clone, Debug)]
pub enum TipEvent {
    /// The block at the point, with its raw bytes, was applied.
    Apply(ChainPoint, Vec<u8>),
}

/// What undoing a block changes in the indexes: the cursor to move to (if
/// any) and the transactions that the block had.
#[derive(Debug)]
pub struct UndoBlockData {
    pub index_cursor: Option<ChainPoint>,
    pub tx_hashes: Vec<[u8; 32]>,
}

/// An error of chain logic, with the chain's own errors as `E`.
#[derive(Debug)]
pub enum ChainError<E> {
    /// The chain cannot take another block before its pending work is done.
    CantReceiveBlock(Vec<u8>),
    /// The namespace is not one of the state's.
    InvalidNamespace(String),
    /// An error of the chain itself.
    ChainSpecific(E),
}

} // verus!

//! Midnight's chain logic.

use vstd::prelude::*;
use crate::block_source::RawSubstrateBlock;
use crate::chain_types::{BlockSlot, ChainError, ChainPoint, UndoBlockData};
use crate::model::MidnightEntity;
use crate::store::EntityStore;
use crate::tx_parser::ExtrinsicParser;
use crate::work::{MidnightWorkUnit, RollWorkUnit};

verus! {

/// An error of the Midnight chain logic.
#[derive(Debug)]
pub enum MidnightError {
    Decode(String),
    Sync(String),
    Crypto(String),
    Internal(String),
}

/// The value of a Midnight error: its kind and message.
pub enum MidnightErrorView {
    Decode(Seq<char>),
    Sync(Seq<char>),
    Crypto(Seq<char>),
    Internal(Seq<char>),
}

impl View for MidnightError {
    type V = MidnightErrorView;

    open spec fn view(&self) -> MidnightErrorView {
        match self {
            MidnightError::Decode(m) => MidnightErrorView::Decode(m@),
            MidnightError::Sync(m) => MidnightErrorView::Sync(m@),
            MidnightError::Crypto(m) => MidnightErrorView::Crypto(m@),
            MidnightError::Internal(m) => MidnightErrorView::Internal(m@),
        }
    }
}

/// A decoded Midnight block and the raw bytes it was decoded from.
#[derive(Debug)]
pub struct MidnightBlock {
    pub number: u64,
    pub hash: [u8; 32],
    pub parent_hash: [u8; 32],
    pub raw_bytes: Vec<u8>,
}

impl MidnightBlock {
    /// The block's point on the chain: its number as slot, and its hash.
    pub open spec fn spec_point(&self) -> ChainPoint {
        ChainPoint::Specific(self.number, self.hash)
    }

    /// The block's slot, which is its number.
    pub fn slot(&self) -> (r: u64)
        ensures
            r == self.number,
    {
        self.number
    }

    /// The block's hash.
    pub fn hash(&self) -> (r: [u8; 32])
        ensures
            r == self.hash,
    {
        self.hash
    }

    /// The block's point on the chain.
    pub fn point(&self) -> (r: ChainPoint)
        ensures
            r == self.spec_point(),
    {
        ChainPoint::Specific(self.number, self.hash)
    }

    /// The raw bytes of the block.
    pub fn raw(&self) -> (r: Vec<u8>)
        ensures
            r@ == self.raw_bytes@,
    {
        self.raw_bytes.clone()
    }

    /// The outputs of other blocks that this block needs: none, since Midnight
    /// tracks its inputs through entities.
    pub fn depends_on(&self) -> (r: Vec<([u8; 32], u32)>)
        ensures
            r@.len() == 0,
    {
        Vec::new()
    }
}

/// Whether a buffer can take a new block.
pub open spec fn buffer_can_receive(b: MidnightWorkBuffer) -> bool {
    !(b is PendingBlock)
}

/// What receiving a block does: while a block is pending it is refused with
/// its bytes; otherwise one that did not decode is refused as a decode
/// error, and a decoded one becomes the pending block and its number is
/// returned. A refusal leaves the buffer as it was.
pub open spec fn receive_outcome(
    before: MidnightWorkBuffer,
    raw: Seq<u8>,
    decoded: Result<RawSubstrateBlock, String>,
    after: MidnightWorkBuffer,
    r: Result<BlockSlot, ChainError<MidnightError>>,
) -> bool {
    if !buffer_can_receive(before) {
        (r matches Err(ChainError::CantReceiveBlock(b)) && b@ == raw) && after == before
    } else {
        match decoded {
            Err(e) => (r matches Err(ChainError::ChainSpecific(MidnightError::Decode(m)))
                && m@ == "failed to deserialize substrate block: "@ + e@) && after == before,
            Ok(b) => r == Ok::<u64, ChainError<MidnightError>>(b.number)
                && (after matches MidnightWorkBuffer::PendingBlock(blk)
                    && blk.number == b.number && blk.hash == b.hash
                    && blk.parent_hash == b.parent_hash && blk.raw_bytes@ == raw),
        }
    }
}

/// What handing out work does: a pending block becomes a roll unit (to be
/// parsed with `parser`, nothing parsed, no deltas) and the buffer records
/// the block's point as synced; without a pending block there is no work and
/// the buffer is left as it was (empty, or synced at the same point).
pub open spec fn pop_outcome<P: ExtrinsicParser>(
    before: MidnightWorkBuffer,
    parser: P,
    after: MidnightWorkBuffer,
    r: Option<MidnightWorkUnit<P>>,
) -> bool {
    match before {
        MidnightWorkBuffer::PendingBlock(b) => (r matches Some(MidnightWorkUnit::Roll(w))
            && w.block == b && w.parser == parser && w.parsed is None && w.deltas@.len() == 0)
            && (after matches MidnightWorkBuffer::Synced(p) && p == b.spec_point()),
        _ => r is None && after == before,
    }
}

/// Receiving a decoded block and then taking the work hands out exactly that
/// block, leaves the logic synced at the block's point, and ready for the
/// next block.
pub proof fn lemma_receive_then_pop<P: ExtrinsicParser>(
    b0: MidnightWorkBuffer,
    raw: Seq<u8>,
    block: RawSubstrateBlock,
    b1: MidnightWorkBuffer,
    r1: Result<BlockSlot, ChainError<MidnightError>>,
    parser: P,
    b2: MidnightWorkBuffer,
    r2: Option<MidnightWorkUnit<P>>,
)
    requires
        buffer_can_receive(b0),
        receive_outcome(b0, raw, Ok(block), b1, r1),
        pop_outcome(b1, parser, b2, r2),
    ensures
        r1 == Ok::<u64, ChainError<MidnightError>>(block.number),
        r2 matches Some(MidnightWorkUnit::Roll(w)) && w.block.number == block.number
            && w.block.hash == block.hash && w.block.raw_bytes@ == raw,
        b2 == MidnightWorkBuffer::Synced(ChainPoint::Specific(block.number, block.hash)),
        buffer_can_receive(b2),
{
}

/// Asking for work when no block is pending hands out nothing and keeps the
/// point the logic is synced at (or keeps it empty before any block).
pub proof fn lemma_idle_pop_keeps_point<P: ExtrinsicParser>(
    b0: MidnightWorkBuffer,
    parser: P,
    b1: MidnightWorkBuffer,
    r: Option<MidnightWorkUnit<P>>,
)
    requires
        !(b0 is PendingBlock),
        pop_outcome(b0, parser, b1, r),
    ensures
        r is None,
        b1 == b0,
        b0 matches MidnightWorkBuffer::Synced(p) ==> b1 == MidnightWorkBuffer::Synced(p),
{
}

/// While a block is pending, further blocks are refused and the pending one
/// is kept: none is lost.
pub proof fn lemma_pending_block_kept(
    b0: MidnightWorkBuffer,
    raw: Seq<u8>,
    decoded: Result<RawSubstrateBlock, String>,
    b1: MidnightWorkBuffer,
    r: Result<BlockSlot, ChainError<MidnightError>>,
)
    requires
        b0 is PendingBlock,
        receive_outcome(b0, raw, decoded, b1, r),
    ensures
        b1 == b0,
        r matches Err(ChainError::CantReceiveBlock(_)),
{
}

/// Settings of the chain logic (none so far).
#[derive(Clone, Copy, Debug)]
pub struct MidnightChainConfig;

/// The network that the node follows.
#[derive(Debug)]
pub struct MidnightGenesis {
    pub ws_url: String,
    pub network_name: String,
}

/// What the chain logic holds between blocks.
#[derive(Debug)]
pub enum MidnightWorkBuffer {
    /// No block received yet.
    Empty,
    /// Synced up to this point; ready for the next block.
    Synced(ChainPoint),
    /// A received block waiting to be processed.
    PendingBlock(MidnightBlock),
}

/// The chain logic of Midnight: it takes one finalized block at a time and
/// hands out the work that applies it.
pub struct MidnightLogic {
    pub config: MidnightChainConfig,
    pub work_buffer: MidnightWorkBuffer,
}

impl MidnightLogic {
    /// Whether a new block can be taken: only when no block is pending.
    pub open spec fn spec_can_receive(&self) -> bool {
        !(self.work_buffer is PendingBlock)
    }

    /// Starts the chain logic at the state's cursor: synced up to it, or
    /// empty on a fresh state.
    pub fn initialize(config: MidnightChainConfig, state: &EntityStore<MidnightEntity>) -> (r: Self)
        ensures
            match state.cursor_point() {
                Some(p) => r.work_buffer matches MidnightWorkBuffer::Synced(q) && q == p,
                None => r.work_buffer is Empty,
            },
    {
        let work_buffer = match state.read_cursor() {
            Some(point) => MidnightWorkBuffer::Synced(point),
            None => MidnightWorkBuffer::Empty,
        };
        MidnightLogic { config, work_buffer }
    }

    /// Whether a new block can be taken.
    pub fn can_receive_block(&self) -> (r: bool)
        ensures
            r == self.spec_can_receive(),
    {
        match self.work_buffer {
            MidnightWorkBuffer::Empty | MidnightWorkBuffer::Synced(_) => true,
            MidnightWorkBuffer::PendingBlock(_) => false,
        }
    }

    /// Takes the raw bytes of a block. `decoded` is the raw block those bytes
    /// decode to, or the decoder's message. A block that arrives while another
    /// is pending is refused with its bytes; one that does not decode is
    /// refused as a decode error; otherwise it becomes the pending block and
    /// its number is returned.
    pub fn receive_block(&mut self, raw: Vec<u8>, decoded: Result<RawSubstrateBlock, String>) -> (r: Result<BlockSlot, ChainError<MidnightError>>)
        ensures
            receive_outcome(old(self).work_buffer, raw@, decoded, final(self).work_buffer, r),
            final(self).config == old(self).config,
    {
        if !self.can_receive_block() {
            return Err(ChainError::CantReceiveBlock(raw));
        }
        let substrate_block = match decoded {
            Ok(b) => b,
            Err(e) => {
                let msg = String::from_str("failed to deserialize substrate block: ").concat(e.as_str());
                return Err(ChainError::ChainSpecific(MidnightError::Decode(msg)));
            },
        };
        let slot = substrate_block.number;
        let block = MidnightBlock {
            number: substrate_block.number,
            hash: substrate_block.hash,
            parent_hash: substrate_block.parent_hash,
            raw_bytes: raw,
        };
        self.work_buffer = MidnightWorkBuffer::PendingBlock(block);
        Ok(slot)
    }

    /// Hands out the work for the pending block, to be parsed with `parser`,
    /// and records the logic as synced up to that block. With no pending
    /// block there is no work, and the buffer keeps what it held: still
    /// empty before any block, still synced at the same point after one.
    pub fn pop_work<P: ExtrinsicParser>(&mut self, parser: P) -> (r: Option<MidnightWorkUnit<P>>)
        ensures
            pop_outcome(old(self).work_buffer, parser, final(self).work_buffer, r),
            final(self).config == old(self).config,
    {
        let mut buffer = MidnightWorkBuffer::Empty;
        std::mem::swap(&mut buffer, &mut self.work_buffer);
        match buffer {
            MidnightWorkBuffer::Empty => None,
            MidnightWorkBuffer::Synced(point) => {
                self.work_buffer = MidnightWorkBuffer::Synced(point);
                None
            },
            MidnightWorkBuffer::PendingBlock(block) => {
                let point = block.point();
                self.work_buffer = MidnightWorkBuffer::Synced(point);
                Some(MidnightWorkUnit::Roll(Box::new(RollWorkUnit::new(block, parser))))
            },
        }
    }

    /// What undoing a block changes: nothing but the index cursor, which moves
    /// to `point` (finalized blocks are not rolled back).
    pub fn compute_undo(point: ChainPoint) -> (r: UndoBlockData)
        ensures
            r.index_cursor == Some(point),
            r.tx_hashes@.len() == 0,
    {
        UndoBlockData { index_cursor: Some(point), tx_hashes: Vec::new() }
    }

    /// The number of slots kept mutable for housekeeping.
    pub fn mutable_slots() -> (r: BlockSlot)
        ensures
            r == 100,
    {
        100
    }

    /// Transaction validation is not offered: always an internal error.
    pub fn validate_tx(&self, cbor: &[u8]) -> (r: Result<(), ChainError<MidnightError>>)
        ensures
            r matches Err(ChainError::ChainSpecific(MidnightError::Internal(m)))
                && m@ == "tx validation not supported in midnight PoC"@,
    {
        Err(ChainError::ChainSpecific(MidnightError::Internal(
            String::from_str("tx validation not supported in midnight PoC"),
        )))
    }

    /// Finding a transaction in a block is not offered: never found.
    pub fn find_tx_in_block(block: &[u8], tx_hash: &[u8]) -> (r: Result<Option<(Vec<u8>, usize)>, MidnightError>)
        ensures
            r matches Ok(None),
    {
        Ok(None)
    }

    /// Midnight has no Cardano-style outputs at the core level: a
    /// transaction body yields no produced outputs.
    pub fn tx_produced_utxos(era_body: &[u8]) -> (r: Vec<(([u8; 32], u32), Vec<u8>)>)
        ensures
            r@.len() == 0,
    {
        Vec::new()
    }

    /// Nor consumed references.
    pub fn tx_consumed_ref(era_body: &[u8]) -> (r: Vec<([u8; 32], u32)>)
        ensures
            r@.len() == 0,
    {
        Vec::new()
    }
}

} // verus!

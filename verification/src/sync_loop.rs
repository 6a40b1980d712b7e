//! The decisions of the block sync loop: where to resume, and what to do
//! after each block.

use vstd::prelude::*;
use crate::block_source::{backfill_blocks, spec_start_block, SyncError};
use crate::chain_types::ChainPoint;

verus! {

/// The slot of a point (none for the origin).
pub open spec fn point_slot(p: ChainPoint) -> Option<u64> {
    match p {
        ChainPoint::Origin => None,
        ChainPoint::Slot(s) => Some(s),
        ChainPoint::Specific(s, _) => Some(s),
    }
}

/// The first block to fetch given the state's cursor: the block after the
/// cursor's slot, block 0 after the origin, and no preference (the source's
/// tip) without a cursor.
pub open spec fn spec_resume_block(cursor: Option<ChainPoint>) -> Option<u64> {
    match cursor {
        None => None,
        Some(ChainPoint::Origin) => Some(0),
        Some(ChainPoint::Slot(s)) => Some((s + 1) as u64),
        Some(ChainPoint::Specific(s, _)) => Some((s + 1) as u64),
    }
}

/// The first block to fetch given the state's cursor.
pub fn resume_block(cursor: Option<ChainPoint>) -> (r: Option<u64>)
    requires
        cursor matches Some(p) ==> (point_slot(p) matches Some(s) ==> s < u64::MAX),
    ensures
        r == spec_resume_block(cursor),
{
    match cursor {
        None => None,
        Some(ChainPoint::Origin) => Some(0),
        Some(ChainPoint::Slot(slot)) => Some(slot + 1),
        Some(ChainPoint::Specific(slot, _)) => Some(slot + 1),
    }
}

/// What the sync loop does next.
#[derive(Debug)]
pub enum SyncStep {
    /// Go on; report the block if it had transactions, and report progress
    /// at every hundredth block.
    Continue { report_txs: bool, report_progress: bool },
    /// Stop with this error.
    Stop(SyncError),
}

/// The sync loop's count of processed blocks.
pub struct SyncProgress {
    pub blocks_processed: u64,
}

impl SyncProgress {
    /// No block processed yet.
    pub fn new() -> (p: Self)
        ensures
            p.blocks_processed == 0,
    {
        SyncProgress { blocks_processed: 0 }
    }

    /// Decides after a block with `tx_count` extrinsics was fed through the
    /// pipeline with `outcome`: on success count it and go on; on failure
    /// stop with a decode error that carries the failure's message.
    pub fn on_block(&mut self, tx_count: usize, outcome: Result<(), String>) -> (step: SyncStep)
        requires
            old(self).blocks_processed < u64::MAX,
        ensures
            match outcome {
                Ok(()) => final(self).blocks_processed == old(self).blocks_processed + 1
                    && step == (SyncStep::Continue {
                        report_txs: tx_count > 0,
                        report_progress: final(self).blocks_processed % 100 == 0,
                    }),
                Err(e) => final(self).blocks_processed == old(self).blocks_processed
                    && (step matches SyncStep::Stop(SyncError::Decode(m))
                        && m@ == "block processing failed: "@ + e@),
            },
    {
        match outcome {
            Ok(()) => {
                self.blocks_processed = self.blocks_processed + 1;
                SyncStep::Continue {
                    report_txs: tx_count > 0,
                    report_progress: self.blocks_processed % 100 == 0,
                }
            },
            Err(e) => {
                proof { reveal_strlit("block processing failed: "); }
                let m = String::from_str("block processing failed: ").concat(e.as_str());
                SyncStep::Stop(SyncError::Decode(m))
            },
        }
    }
}

/// Sync resumes right after the block it last committed: once the state's
/// cursor is that block's point, the subscription starts at the next block,
/// and backfills from there up to the tip.
pub proof fn lemma_resume_after_commit(n: u64, hash: [u8; 32], tip: u64)
    requires
        n < u64::MAX,
    ensures
        spec_start_block(spec_resume_block(Some(ChainPoint::Specific(n, hash))), tip) == n + 1,
        n + 1 <= tip ==> backfill_blocks((n + 1) as u64, tip)[0] == n + 1,
        n + 1 <= tip ==> backfill_blocks((n + 1) as u64, tip).last() == tip,
{
}

} // verus!

//! The pieces of the node's domain that Midnight does not use yet: a mempool
//! that accepts nothing, and the rule for announcing a new tip.

use vstd::prelude::*;
use crate::block_source::RawSubstrateBlock;
use crate::chain::{buffer_can_receive, MidnightError, MidnightGenesis, MidnightLogic, MidnightWorkBuffer};
use crate::chain_types::{ChainError, ChainPoint, TipEvent};
use crate::model::MidnightEntity;
use crate::store::{ArchiveStore, EntityStore};
use crate::tx_parser::ExtrinsicParser;
use crate::work::{block_deltas, commit_deltas, WalStore};

verus! {

/// A transaction waiting in the mempool.
#[derive(Debug)]
pub struct MempoolTx {
    pub hash: [u8; 32],
    pub payload: Vec<u8>,
}

/// Why the mempool refused something.
#[derive(Debug)]
pub enum MempoolError {
    Internal(String),
}

/// Where a transaction stands in the mempool.
#[derive(Clone, Copy, Debug, PartialEq, Eq, Structural)]
pub enum MempoolTxStage {
    Pending,
    Inflight,
    Acknowledged,
    Confirmed,
    Finalized,
    Dropped,
    RolledBack,
    Unknown,
}

/// The status of a transaction.
#[derive(Clone, Copy, Debug)]
pub struct TxStatus {
    pub stage: MempoolTxStage,
    pub confirmations: u32,
    pub non_confirmations: u32,
    pub confirmed_at: Option<ChainPoint>,
}

/// A page of finalized transactions.
#[derive(Debug)]
pub struct MempoolPage {
    pub items: Vec<MempoolTx>,
    pub next_cursor: Option<u64>,
}

/// A mempool event stream that has ended.
pub struct EmptyMempoolStream;

impl EmptyMempoolStream {
    /// The next event: there is none.
    pub fn poll_next(&mut self) -> (r: Option<MempoolTx>)
        ensures
            r is None,
    {
        None
    }
}

/// A mempool that takes no transactions and holds none.
#[derive(Clone, Copy, Debug)]
pub struct StubMempool;

impl StubMempool {
    /// Refuses every transaction.
    pub fn receive(&self, tx: MempoolTx) -> (r: Result<(), MempoolError>)
        ensures
            r matches Err(MempoolError::Internal(m)) && m@ == "mempool not supported in midnight PoC"@,
    {
        Err(MempoolError::Internal(String::from_str("mempool not supported in midnight PoC")))
    }

    /// Nothing is pending.
    pub fn has_pending(&self) -> (r: bool)
        ensures
            !r,
    {
        false
    }

    /// No pending transactions.
    pub fn peek_pending(&self) -> (r: Vec<MempoolTx>)
        ensures
            r@.len() == 0,
    {
        Vec::new()
    }

    /// Accepted and ignored.
    pub fn mark_inflight(&self, hashes: &[[u8; 32]]) -> (r: Result<(), MempoolError>)
        ensures
            r is Ok,
    {
        Ok(())
    }

    /// Accepted and ignored.
    pub fn mark_acknowledged(&self, hashes: &[[u8; 32]]) -> (r: Result<(), MempoolError>)
        ensures
            r is Ok,
    {
        Ok(())
    }

    /// No transaction is in flight.
    pub fn find_inflight(&self, tx_hash: &[u8; 32]) -> (r: Option<MempoolTx>)
        ensures
            r is None,
    {
        None
    }

    /// No transactions in flight.
    pub fn peek_inflight(&self) -> (r: Vec<MempoolTx>)
        ensures
            r@.len() == 0,
    {
        Vec::new()
    }

    /// Accepted and ignored.
    pub fn confirm(
        &self,
        point: &ChainPoint,
        seen_txs: &[[u8; 32]],
        unseen_txs: &[[u8; 32]],
        finalize_threshold: u32,
        drop_threshold: u32,
    ) -> (r: Result<(), MempoolError>)
        ensures
            r is Ok,
    {
        Ok(())
    }

    /// Every transaction is unknown.
    pub fn check_status(&self, tx_hash: &[u8; 32]) -> (r: TxStatus)
        ensures
            r == (TxStatus {
                stage: MempoolTxStage::Unknown,
                confirmations: 0,
                non_confirmations: 0,
                confirmed_at: None,
            }),
    {
        TxStatus { stage: MempoolTxStage::Unknown, confirmations: 0, non_confirmations: 0, confirmed_at: None }
    }

    /// No finalized transactions, and no next page.
    pub fn dump_finalized(&self, cursor: u64, limit: usize) -> (r: MempoolPage)
        ensures
            r.items@.len() == 0,
            r.next_cursor is None,
    {
        MempoolPage { items: Vec::new(), next_cursor: None }
    }

    /// An event stream that has ended.
    pub fn subscribe(&self) -> (r: EmptyMempoolStream) {
        EmptyMempoolStream
    }
}

/// Whether a new tip is broadcast: only when someone listens.
pub fn should_notify_tip(receiver_count: usize) -> (r: bool)
    ensures
        r == (receiver_count > 0),
{
    receiver_count > 0
}

/// The node's stores and chain logic, wired together.
pub struct MidnightDomain {
    pub wal: WalStore,
    pub chain: MidnightLogic,
    pub state: EntityStore<MidnightEntity>,
    pub archive: ArchiveStore,
    pub mempool: StubMempool,
    pub genesis: MidnightGenesis,
}

impl MidnightDomain {
    /// Feeds one finalized block through the pipeline: the chain logic takes
    /// its raw bytes (`decoded` is what they decode to), hands out the work,
    /// which parses the block with `parser`, builds the deltas, and commits
    /// them to the write-ahead log, then to the state (moving its cursor to the
    /// block), then to the archive. The tip events to announce are returned.
    pub fn roll_forward<P: ExtrinsicParser>(
        &mut self,
        raw: Vec<u8>,
        decoded: Result<RawSubstrateBlock, String>,
        parser: P,
    ) -> (r: Result<Vec<TipEvent>, ChainError<MidnightError>>)
        ensures
            final(self).genesis == old(self).genesis,
            !buffer_can_receive(old(self).chain.work_buffer) ==> (r matches Err(ChainError::CantReceiveBlock(b)) && b@ == raw@)
                && final(self).chain == old(self).chain,
            decoded is Err ==> r is Err && final(self).chain.work_buffer == old(self).chain.work_buffer,
            buffer_can_receive(old(self).chain.work_buffer) ==> (decoded matches Err(e)
                ==> (r matches Err(ChainError::ChainSpecific(MidnightError::Decode(m)))
                    && m@ == "failed to deserialize substrate block: "@ + e@)),
            r is Err ==> final(self).state.entities() == old(self).state.entities()
                && final(self).state.cursor_point() == old(self).state.cursor_point()
                && final(self).archive.contents() == old(self).archive.contents()
                && final(self).wal.log() == old(self).wal.log(),
            buffer_can_receive(old(self).chain.work_buffer) ==> match decoded {
                Ok(b) => {
                    let point = ChainPoint::Specific(b.number, b.hash);
                    &&& final(self).chain.work_buffer == MidnightWorkBuffer::Synced(point)
                    &&& match parser.parse_result(b@) {
                        None => r matches Err(ChainError::ChainSpecific(e))
                            && e@ == parser.parse_error(b@),
                        Some(p) => {
                            let ds = block_deltas(p.transactions, p.slot);
                            &&& r matches Ok(events) && events@.len() == 1
                                && (events@[0] matches TipEvent::Apply(q, bytes) && q == point && bytes@ == raw@)
                            &&& final(self).state.entities() == commit_deltas(old(self).state.entities(), ds)
                            &&& final(self).state.cursor_point() == Some(point)
                            &&& final(self).wal.log() == old(self).wal.log().push((point, raw@, ds))
                            &&& final(self).archive.contents().contains((b.number, point, raw@))
                            &&& forall|e: (u64, ChainPoint, Seq<u8>)| #[trigger] final(self).archive.contents().contains(e)
                                && e.0 != b.number ==> old(self).archive.contents().contains(e)
                            &&& forall|e: (u64, ChainPoint, Seq<u8>)| #[trigger] old(self).archive.contents().contains(e)
                                && e.0 != b.number ==> final(self).archive.contents().contains(e)
                        },
                    }
                },
                Err(_) => true,
            },
    {
        let reparsed = match &decoded {
            Ok(b) => Ok(b.duplicate()),
            Err(e) => Err(e.clone()),
        };
        let _slot = match self.chain.receive_block(raw, decoded) {
            Ok(slot) => slot,
            Err(e) => {
                return Err(e);
            },
        };
        let mut work = match self.chain.pop_work(parser) {
            Some(w) => w,
            None => {
                return Err(ChainError::ChainSpecific(MidnightError::Internal(
                    String::from_str("no work after receiving a block"),
                )));
            },
        };
        match work.load(reparsed) {
            Ok(()) => {},
            Err(e) => {
                return Err(e);
            },
        }
        work.compute();
        work.commit_wal(&mut self.wal);
        work.commit_state(&mut self.state);
        work.commit_archive(&mut self.archive);
        let _ = work.commit_indexes();
        Ok(work.tip_events())
    }
}

} // verus!

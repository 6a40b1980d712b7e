//! The work that applying one finalized block to the node's stores takes:
//! parse the block, turn its outputs into entity deltas, and commit them.

use vstd::prelude::*;
use crate::block_source::RawSubstrateBlock;
use crate::chain::{MidnightBlock, MidnightError};
use crate::chain_types::{ChainError, ChainPoint, TipEvent};
use crate::model::{
    copy_byte_strings, apply_delta, opt_entity_view, delta_key, CreateShieldedUtxo, CreateUnshieldedUtxo, DeltaView,
    EntityView, MidnightDelta, MidnightEntity, Namespace, ShieldedUtxoState, ShieldedUtxoView, UnshieldedUtxoState,
    spec_utxo_entity_key,
};
use crate::store::{ArchiveStore, EntityStore};
use crate::tx_parser::{ExtrinsicParser, ParsedBlock, ParsedTxView, ShieldedOutputView, UnshieldedOutput};

verus! {

/// The shielded UTxO that output `o` of transaction `tx` creates at `slot`.
pub open spec fn shielded_created(tx: ParsedTxView, o: ShieldedOutputView, slot: u64) -> ShieldedUtxoView {
    ShieldedUtxoView {
        intent_hash: tx.tx_hash,
        output_index: o.output_index,
        ciphertexts: o.ciphertexts,
        created_slot: slot,
        created_tx_hash: tx.tx_hash,
        spent_slot: None,
        spent_tx_hash: None,
        ledger_version: o.ledger_version,
        raw_coin: o.raw_coin,
    }
}

/// The unshielded UTxO that output `o` of transaction `tx` creates at `slot`.
pub open spec fn unshielded_created(tx: ParsedTxView, o: UnshieldedOutput, slot: u64) -> UnshieldedUtxoState {
    UnshieldedUtxoState {
        owner: o.owner,
        token_type: o.token_type,
        value: o.value,
        intent_hash: tx.tx_hash,
        output_index: o.output_index,
        created_slot: slot,
        created_tx_hash: tx.tx_hash,
        spent_slot: None,
        spent_tx_hash: None,
    }
}

/// The deltas of one transaction: a creation for each shielded output, then
/// one for each unshielded output, in order. Spends are not tracked.
pub open spec fn tx_deltas(tx: ParsedTxView, slot: u64) -> Seq<DeltaView> {
    Seq::new(
        tx.shielded_outputs.len(),
        |i: int| DeltaView::CreateShielded(shielded_created(tx, tx.shielded_outputs[i], slot)),
    ) + Seq::new(
        tx.unshielded_outputs.len(),
        |i: int| DeltaView::CreateUnshielded(unshielded_created(tx, tx.unshielded_outputs[i], slot)),
    )
}

/// The deltas of a block's transactions, transaction by transaction.
pub open spec fn block_deltas(txs: Seq<ParsedTxView>, slot: u64) -> Seq<DeltaView>
    decreases txs.len(),
{
    if txs.len() == 0 {
        Seq::empty()
    } else {
        block_deltas(txs.drop_last(), slot) + tx_deltas(txs.last(), slot)
    }
}

/// The views of a list of deltas.
pub open spec fn deltas_view(ds: Seq<MidnightDelta>) -> Seq<DeltaView> {
    ds.map_values(|d: MidnightDelta| d@)
}

/// The entity under `k`, if any.
pub open spec fn lookup(m: Map<(u8, Seq<u8>), EntityView>, k: (u8, Seq<u8>)) -> Option<EntityView> {
    if m.dom().contains(k) {
        Some(m[k])
    } else {
        None
    }
}

/// The store key of a delta: its namespace's tag and its entity key.
pub open spec fn store_key(d: DeltaView) -> (u8, Seq<u8>) {
    (delta_key(d).0.tag(), delta_key(d).1)
}

/// The entities after committing `ds` as one write batch over the
/// entities `base`: each delta is applied to what `base` holds under its key
/// (the batch does not read its own writes), its result is written under the
/// key, a later write to a key replaces an earlier one, and a delta that
/// leaves nothing writes nothing.
pub open spec fn commit_deltas(base: Map<(u8, Seq<u8>), EntityView>, ds: Seq<DeltaView>) -> Map<(u8, Seq<u8>), EntityView>
    decreases ds.len(),
{
    if ds.len() == 0 {
        base
    } else {
        let before = commit_deltas(base, ds.drop_last());
        let d = ds.last();
        match apply_delta(d, lookup(base, store_key(d))) {
            Some(e) => before.insert(store_key(d), e),
            None => before,
        }
    }
}

/// What the write batch holds for delta `d` read against `base`.
pub open spec fn batch_write(base: Map<(u8, Seq<u8>), EntityView>, d: DeltaView) -> ((u8, Seq<u8>), Option<EntityView>) {
    (store_key(d), apply_delta(d, lookup(base, store_key(d))))
}

/// What the write-ahead log keeps of a block: its raw bytes and its deltas.
pub struct LogValue {
    pub block: Vec<u8>,
    pub delta: Vec<MidnightDelta>,
}

/// The write-ahead log: points and what was logged for them, in order.
pub struct WalStore {
    entries: Vec<(ChainPoint, LogValue)>,
}

/// The value of a log entry.
pub open spec fn log_entry_view(e: (ChainPoint, LogValue)) -> (ChainPoint, Seq<u8>, Seq<DeltaView>) {
    (e.0, e.1.block@, deltas_view(e.1.delta@))
}

impl WalStore {
    /// The logged entries, oldest first.
    pub closed spec fn log(self) -> Seq<(ChainPoint, Seq<u8>, Seq<DeltaView>)> {
        self.entries@.map_values(|e: (ChainPoint, LogValue)| log_entry_view(e))
    }

    /// An empty log.
    pub fn new() -> (w: Self)
        ensures
            w.log().len() == 0,
    {
        WalStore { entries: Vec::new() }
    }

    /// Appends entries, in order.
    pub fn append_entries(&mut self, entries: Vec<(ChainPoint, LogValue)>)
        ensures
            final(self).log() == old(self).log() + entries@.map_values(|e: (ChainPoint, LogValue)| log_entry_view(e)),
    {
        let mut rest = entries;
        let ghost all = rest@.map_values(|e: (ChainPoint, LogValue)| log_entry_view(e));
        let ghost start = self.log();
        while 0 < rest.len()
            invariant
                self.log() + rest@.map_values(|e: (ChainPoint, LogValue)| log_entry_view(e)) == start + all,
            decreases rest.len(),
        {
            let e = rest.remove(0);
            let ghost before = self.entries@;
            self.entries.push(e);
            assert(self.log() =~= before.map_values(|e: (ChainPoint, LogValue)| log_entry_view(e)).push(log_entry_view(e)));
        }
        assert(rest@.map_values(|e: (ChainPoint, LogValue)| log_entry_view(e)) =~= Seq::<(ChainPoint, Seq<u8>, Seq<DeltaView>)>::empty());
        assert(self.log() =~= start + all);
    }
}

/// Copies a list of deltas.
pub fn copy_deltas(ds: &Vec<MidnightDelta>) -> (r: Vec<MidnightDelta>)
    ensures
        deltas_view(r@) == deltas_view(ds@),
{
    let mut r: Vec<MidnightDelta> = Vec::new();
    let mut i: usize = 0;
    while i < ds.len()
        invariant
            i <= ds.len(),
            deltas_view(r@) == deltas_view(ds@).take(i as int),
        decreases ds.len() - i,
    {
        let ghost before = r@;
        let d = ds[i].duplicate();
        r.push(d);
        assert(deltas_view(r@) =~= deltas_view(before).push(d@));
        assert(deltas_view(ds@).take(i + 1) =~= deltas_view(ds@).take(i as int).push(ds@[i as int]@));
        assert(deltas_view(r@) =~= deltas_view(ds@).take(i + 1));
        i = i + 1;
    }
    assert(deltas_view(ds@).take(i as int) =~= deltas_view(ds@));
    r
}

/// Processing of one finalized block.
pub struct RollWorkUnit<P: ExtrinsicParser> {
    pub block: MidnightBlock,
    pub parser: P,
    pub parsed: Option<ParsedBlock>,
    pub deltas: Vec<MidnightDelta>,
}

impl<P: ExtrinsicParser> RollWorkUnit<P> {
    /// Work for `block`, to be parsed with `parser`; nothing parsed, no deltas yet.
    pub fn new(block: MidnightBlock, parser: P) -> (w: Self)
        ensures
            w.block == block,
            w.parser == parser,
            w.parsed is None,
            w.deltas@.len() == 0,
    {
        RollWorkUnit { block, parser, parsed: None, deltas: Vec::new() }
    }

    /// Parses the block. `decoded` is the raw block that the block's bytes
    /// decode to, or the decoder's message.
    pub fn load(&mut self, decoded: Result<RawSubstrateBlock, String>) -> (r: Result<(), ChainError<MidnightError>>)
        ensures
            final(self).block == old(self).block,
            final(self).parser == old(self).parser,
            final(self).deltas == old(self).deltas,
            match decoded {
                Err(e) => (r matches Err(ChainError::ChainSpecific(MidnightError::Decode(m)))
                    && m@ == "re-decode block: "@ + e@) && final(self).parsed == old(self).parsed,
                Ok(b) => match old(self).parser.parse_result(b@) {
                    Some(p) => r is Ok && (final(self).parsed matches Some(q) && q@ == p),
                    None => (r matches Err(ChainError::ChainSpecific(e))
                        && e@ == old(self).parser.parse_error(b@))
                        && final(self).parsed == old(self).parsed,
                },
            },
    {
        let substrate_block = match decoded {
            Ok(b) => b,
            Err(e) => {
                let msg = String::from_str("re-decode block: ").concat(e.as_str());
                return Err(ChainError::ChainSpecific(MidnightError::Decode(msg)));
            },
        };
        match self.parser.parse_block(&substrate_block) {
            Ok(parsed) => {
                self.parsed = Some(parsed);
                Ok(())
            },
            Err(e) => Err(ChainError::ChainSpecific(e)),
        }
    }

    /// Turns the parsed transactions into deltas: for each transaction, a
    /// creation per shielded output and then per unshielded output, all at
    /// the parsed block's slot. Without parsed data, nothing changes.
    pub fn compute(&mut self)
        ensures
            final(self).block == old(self).block,
            final(self).parser == old(self).parser,
            final(self).parsed is None,
            match old(self).parsed {
                Some(p) => deltas_view(final(self).deltas@) == deltas_view(old(self).deltas@)
                    + block_deltas(p@.transactions, p.slot),
                None => final(self).deltas == old(self).deltas,
            },
    {
        let parsed = match self.parsed.take() {
            Some(p) => p,
            None => {
                return;
            },
        };
        let slot = parsed.slot;
        let ghost start = deltas_view(self.deltas@);
        let ghost txs = parsed@.transactions;
        let mut i: usize = 0;
        while i < parsed.transactions.len()
            invariant
                i <= parsed.transactions.len(),
                txs == parsed@.transactions,
                slot == parsed.slot,
                deltas_view(self.deltas@) == start + block_deltas(txs.take(i as int), slot),
                self.parsed is None,
                self.block == old(self).block,
                self.parser == old(self).parser,
            decreases parsed.transactions.len() - i,
        {
            let tx = &parsed.transactions[i];
            let ghost txv = tx@;
            let ghost before = deltas_view(self.deltas@);
            let mut j: usize = 0;
            while j < tx.shielded_outputs.len()
                invariant
                    j <= tx.shielded_outputs.len(),
                    txv == tx@,
                    deltas_view(self.deltas@) == before + Seq::new(
                        j as nat,
                        |k: int| DeltaView::CreateShielded(shielded_created(txv, txv.shielded_outputs[k], slot)),
                    ),
                    self.parsed is None,
                    self.block == old(self).block,
                    self.parser == old(self).parser,
                decreases tx.shielded_outputs.len() - j,
            {
                let output = &tx.shielded_outputs[j];
                let state = ShieldedUtxoState {
                    intent_hash: tx.tx_hash,
                    output_index: output.output_index,
                    ciphertexts: copy_byte_strings(&output.ciphertexts),
                    created_slot: slot,
                    created_tx_hash: tx.tx_hash,
                    spent_slot: None,
                    spent_tx_hash: None,
                    ledger_version: output.ledger_version,
                    raw_coin: output.raw_coin.clone(),
                };
                let ghost old_deltas = self.deltas@;
                self.deltas.push(MidnightDelta::CreateShieldedUtxo(Box::new(CreateShieldedUtxo { state })));
                proof {
                    assert(deltas_view(self.deltas@) =~= deltas_view(old_deltas).push(
                        DeltaView::CreateShielded(shielded_created(txv, txv.shielded_outputs[j as int], slot))));
                    assert(Seq::new(
                        (j + 1) as nat,
                        |k: int| DeltaView::CreateShielded(shielded_created(txv, txv.shielded_outputs[k], slot)),
                    ) =~= Seq::new(
                        j as nat,
                        |k: int| DeltaView::CreateShielded(shielded_created(txv, txv.shielded_outputs[k], slot)),
                    ).push(DeltaView::CreateShielded(shielded_created(txv, txv.shielded_outputs[j as int], slot))));
                }
                j = j + 1;
            }
            let ghost mid = deltas_view(self.deltas@);
            let mut j: usize = 0;
            while j < tx.unshielded_outputs.len()
                invariant
                    j <= tx.unshielded_outputs.len(),
                    txv == tx@,
                    deltas_view(self.deltas@) == mid + Seq::new(
                        j as nat,
                        |k: int| DeltaView::CreateUnshielded(unshielded_created(txv, txv.unshielded_outputs[k], slot)),
                    ),
                    self.parsed is None,
                    self.block == old(self).block,
                    self.parser == old(self).parser,
                decreases tx.unshielded_outputs.len() - j,
            {
                let output = &tx.unshielded_outputs[j];
                let state = UnshieldedUtxoState {
                    owner: output.owner,
                    token_type: output.token_type,
                    value: output.value,
                    intent_hash: tx.tx_hash,
                    output_index: output.output_index,
                    created_slot: slot,
                    created_tx_hash: tx.tx_hash,
                    spent_slot: None,
                    spent_tx_hash: None,
                };
                let ghost old_deltas = self.deltas@;
                self.deltas.push(MidnightDelta::CreateUnshieldedUtxo(Box::new(CreateUnshieldedUtxo { state })));
                proof {
                    assert(deltas_view(self.deltas@) =~= deltas_view(old_deltas).push(
                        DeltaView::CreateUnshielded(unshielded_created(txv, txv.unshielded_outputs[j as int], slot))));
                    assert(Seq::new(
                        (j + 1) as nat,
                        |k: int| DeltaView::CreateUnshielded(unshielded_created(txv, txv.unshielded_outputs[k], slot)),
                    ) =~= Seq::new(
                        j as nat,
                        |k: int| DeltaView::CreateUnshielded(unshielded_created(txv, txv.unshielded_outputs[k], slot)),
                    ).push(DeltaView::CreateUnshielded(unshielded_created(txv, txv.unshielded_outputs[j as int], slot))));
                }
                j = j + 1;
            }
            proof {
                assert(txs.take(i + 1).drop_last() =~= txs.take(i as int));
                assert(txs.take(i + 1).last() == txv);
                assert(deltas_view(self.deltas@) =~= start + block_deltas(txs.take(i + 1), slot));
            }
            i = i + 1;
        }
        proof {
            assert(txs.take(txs.len() as int) =~= txs);
        }
    }
    /// Commits the deltas to the state as one write batch and moves the
    /// state's cursor to the block's point.
    pub fn commit_state(&self, state: &mut EntityStore<MidnightEntity>)
        ensures
            final(state).entities() == commit_deltas(old(state).entities(), deltas_view(self.deltas@)),
            final(state).cursor_point() == Some(self.block.spec_point()),
    {
        let ghost base = state.entities();
        let ghost ds = deltas_view(self.deltas@);
        // read phase: every delta sees the state as it was before the batch
        let mut writes: Vec<(u8, [u8; 32], Option<MidnightEntity>)> = Vec::new();
        let mut i: usize = 0;
        while i < self.deltas.len()
            invariant
                i <= self.deltas.len(),
                ds == deltas_view(self.deltas@),
                state.entities() == base,
                writes.len() == i,
                forall|j: int| 0 <= j < i ==> {
                    let w = #[trigger] writes[j];
                    &&& (w.0, w.1@) == batch_write(base, ds[j]).0
                    &&& opt_entity_view(w.2) == batch_write(base, ds[j]).1
                },
            decreases self.deltas.len() - i,
        {
            let delta = &self.deltas[i];
            let k = delta.key();
            let tag = k.ns.store_tag();
            let mut entity: Option<MidnightEntity> = match state.read(tag, &k.key) {
                Some(e) => Some(e.duplicate()),
                None => None,
            };
            proof {
                assert(ds[i as int] == delta@);
                assert(opt_entity_view(entity) == lookup(base, store_key(delta@)));
            }
            delta.apply(&mut entity);
            writes.push((tag, k.key, entity));
            i = i + 1;
        }
        // write phase
        let mut j: usize = 0;
        while j < writes.len()
            invariant
                j <= writes.len(),
                writes.len() == ds.len(),
                state.entities() == commit_deltas(base, ds.take(j as int)),
                forall|m: int| 0 <= m < writes.len() ==> {
                    let w = #[trigger] writes[m];
                    &&& (w.0, w.1@) == batch_write(base, ds[m]).0
                    &&& opt_entity_view(w.2) == batch_write(base, ds[m]).1
                },
            decreases writes.len() - j,
        {
            let ghost before = state.entities();
            let ghost w = writes[j as int];
            proof {
                assert(ds.take(j + 1).drop_last() =~= ds.take(j as int));
                assert(ds.take(j + 1).last() == ds[j as int]);
            }
            match &writes[j].2 {
                Some(ent) => {
                    let e = ent.duplicate();
                    state.write(writes[j].0, &writes[j].1, e);
                },
                None => {},
            }
            j = j + 1;
        }
        proof {
            assert(ds.take(ds.len() as int) =~= ds);
        }
        state.set_cursor(self.block.point());
    }

    /// Logs the block's raw bytes and deltas at the block's point.
    pub fn commit_wal(&self, wal: &mut WalStore)
        ensures
            final(wal).log() == old(wal).log().push(
                (self.block.spec_point(), self.block.raw_bytes@, deltas_view(self.deltas@)),
            ),
    {
        let value = LogValue { block: self.block.raw(), delta: copy_deltas(&self.deltas) };
        let mut entries = Vec::new();
        entries.push((self.block.point(), value));
        wal.append_entries(entries);
        assert(entries@.map_values(|e: (ChainPoint, LogValue)| log_entry_view(e)) =~= seq![
            (self.block.spec_point(), self.block.raw_bytes@, deltas_view(self.deltas@))]);
    }

    /// Archives the block's raw bytes at its number and point.
    pub fn commit_archive(&self, archive: &mut ArchiveStore)
        ensures
            final(archive).contents().contains((self.block.number, self.block.spec_point(), self.block.raw_bytes@)),
            forall|e: (u64, ChainPoint, Seq<u8>)| #[trigger] final(archive).contents().contains(e) && e.0 != self.block.number
                ==> old(archive).contents().contains(e),
            forall|e: (u64, ChainPoint, Seq<u8>)| #[trigger] old(archive).contents().contains(e) && e.0 != self.block.number
                ==> final(archive).contents().contains(e),
    {
        archive.apply(self.block.number, self.block.point(), self.block.raw());
    }

    /// The tip event for this block: the block was applied at its point.
    pub fn tip_events(&self) -> (r: Vec<TipEvent>)
        ensures
            r@.len() == 1,
            r@[0] matches TipEvent::Apply(p, raw) && p == self.block.spec_point() && raw@ == self.block.raw_bytes@,
    {
        let mut r = Vec::new();
        r.push(TipEvent::Apply(self.block.point(), self.block.raw()));
        r
    }
}

/// A unit of work of the Midnight chain.
pub enum MidnightWorkUnit<P: ExtrinsicParser> {
    /// Apply one finalized block.
    Roll(Box<RollWorkUnit<P>>),
}

impl<P: ExtrinsicParser> MidnightWorkUnit<P> {
    /// The roll work inside.
    pub open spec fn roll(self) -> RollWorkUnit<P> {
        match self {
            MidnightWorkUnit::Roll(w) => *w,
        }
    }

    /// The unit's name.
    pub fn name(&self) -> (r: &'static str)
        ensures
            r@ == "roll"@,
    {
        match self {
            MidnightWorkUnit::Roll(_) => "roll",
        }
    }

    /// Parses the block (see `RollWorkUnit::load`).
    pub fn load(&mut self, decoded: Result<RawSubstrateBlock, String>) -> (r: Result<(), ChainError<MidnightError>>)
        ensures
            final(self).roll().block == old(self).roll().block,
            final(self).roll().deltas == old(self).roll().deltas,
            match decoded {
                Err(e) => r matches Err(ChainError::ChainSpecific(MidnightError::Decode(m)))
                    && m@ == "re-decode block: "@ + e@,
                Ok(b) => match old(self).roll().parser.parse_result(b@) {
                    Some(p) => r is Ok && (final(self).roll().parsed matches Some(q) && q@ == p),
                    None => r matches Err(ChainError::ChainSpecific(e))
                        && e@ == old(self).roll().parser.parse_error(b@),
                },
            },
    {
        match self {
            MidnightWorkUnit::Roll(w) => w.load(decoded),
        }
    }

    /// Builds the deltas (see `RollWorkUnit::compute`).
    pub fn compute(&mut self)
        ensures
            final(self).roll().block == old(self).roll().block,
            final(self).roll().parsed is None,
            match old(self).roll().parsed {
                Some(p) => deltas_view(final(self).roll().deltas@) == deltas_view(old(self).roll().deltas@)
                    + block_deltas(p@.transactions, p.slot),
                None => final(self).roll().deltas == old(self).roll().deltas,
            },
    {
        match self {
            MidnightWorkUnit::Roll(w) => w.compute(),
        }
    }

    /// Logs the block (see `RollWorkUnit::commit_wal`).
    pub fn commit_wal(&self, wal: &mut WalStore)
        ensures
            final(wal).log() == old(wal).log().push(
                (self.roll().block.spec_point(), self.roll().block.raw_bytes@, deltas_view(self.roll().deltas@)),
            ),
    {
        match self {
            MidnightWorkUnit::Roll(w) => w.commit_wal(wal),
        }
    }

    /// Commits the deltas (see `RollWorkUnit::commit_state`).
    pub fn commit_state(&self, state: &mut EntityStore<MidnightEntity>)
        ensures
            final(state).entities() == commit_deltas(old(state).entities(), deltas_view(self.roll().deltas@)),
            final(state).cursor_point() == Some(self.roll().block.spec_point()),
    {
        match self {
            MidnightWorkUnit::Roll(w) => w.commit_state(state),
        }
    }

    /// Archives the block (see `RollWorkUnit::commit_archive`).
    pub fn commit_archive(&self, archive: &mut ArchiveStore)
        ensures
            final(archive).contents().contains(
                (self.roll().block.number, self.roll().block.spec_point(), self.roll().block.raw_bytes@),
            ),
            forall|e: (u64, ChainPoint, Seq<u8>)| #[trigger] final(archive).contents().contains(e)
                && e.0 != self.roll().block.number ==> old(archive).contents().contains(e),
            forall|e: (u64, ChainPoint, Seq<u8>)| #[trigger] old(archive).contents().contains(e)
                && e.0 != self.roll().block.number ==> final(archive).contents().contains(e),
    {
        match self {
            MidnightWorkUnit::Roll(w) => w.commit_archive(archive),
        }
    }

    /// There are no indexes to commit.
    pub fn commit_indexes(&self) -> (r: Result<(), ChainError<MidnightError>>)
        ensures
            r is Ok,
    {
        Ok(())
    }

    /// The tip events (see `RollWorkUnit::tip_events`).
    pub fn tip_events(&self) -> (r: Vec<TipEvent>)
        ensures
            r@.len() == 1,
            r@[0] matches TipEvent::Apply(p, raw) && p == self.roll().block.spec_point()
                && raw@ == self.roll().block.raw_bytes@,
    {
        match self {
            MidnightWorkUnit::Roll(w) => w.tip_events(),
        }
    }
}

/// The entity that a creation stores.
pub open spec fn created_entity(d: DeltaView) -> Option<EntityView> {
    match d {
        DeltaView::CreateShielded(s) => Some(EntityView::Shielded(s)),
        DeltaView::CreateUnshielded(s) => Some(EntityView::Unshielded(s)),
        _ => None,
    }
}

/// After a batch is committed, a UTxO that the batch created is read back
/// under its key as created, unless a later delta of the batch wrote the
/// same key.
pub proof fn lemma_committed_creation_readable(base: Map<(u8, Seq<u8>), EntityView>, ds: Seq<DeltaView>, i: int)
    requires
        0 <= i < ds.len(),
        created_entity(ds[i]) is Some,
        forall|j: int| i < j < ds.len() ==> store_key(#[trigger] ds[j]) != store_key(ds[i]),
    ensures
        commit_deltas(base, ds).dom().contains(store_key(ds[i])),
        Some(commit_deltas(base, ds)[store_key(ds[i])]) == created_entity(ds[i]),
    decreases ds.len(),
{
    if i < ds.len() - 1 {
        lemma_committed_creation_readable(base, ds.drop_last(), i);
        assert(store_key(ds[ds.len() - 1]) != store_key(ds[i]));
    }
}

/// A batch leaves every key that none of its deltas writes as it was.
pub proof fn lemma_commit_leaves_others(base: Map<(u8, Seq<u8>), EntityView>, ds: Seq<DeltaView>, k: (u8, Seq<u8>))
    requires
        forall|j: int| 0 <= j < ds.len() ==> store_key(#[trigger] ds[j]) != k,
    ensures
        commit_deltas(base, ds).dom().contains(k) == base.dom().contains(k),
        base.dom().contains(k) ==> commit_deltas(base, ds)[k] == base[k],
    decreases ds.len(),
{
    if ds.len() > 0 {
        lemma_commit_leaves_others(base, ds.drop_last(), k);
        assert(store_key(ds[ds.len() - 1]) != k);
    }
}


/// A transaction's outputs become exactly its UTxO creations: one per
/// shielded output, in order, then one per unshielded output, in order, each
/// carrying its output's index and contents, the transaction's hash as intent
/// and creating transaction, the block's slot, and no spend.
pub proof fn lemma_tx_outputs_become_creations(tx: ParsedTxView, slot: u64)
    ensures
        tx_deltas(tx, slot).len() == tx.shielded_outputs.len() + tx.unshielded_outputs.len(),
        forall|k: int| 0 <= k < tx.shielded_outputs.len() ==> #[trigger] tx_deltas(tx, slot)[k] == DeltaView::CreateShielded(ShieldedUtxoView {
                intent_hash: tx.tx_hash,
                output_index: tx.shielded_outputs[k].output_index,
                ciphertexts: tx.shielded_outputs[k].ciphertexts,
                created_slot: slot,
                created_tx_hash: tx.tx_hash,
                spent_slot: None,
                spent_tx_hash: None,
                ledger_version: tx.shielded_outputs[k].ledger_version,
                raw_coin: tx.shielded_outputs[k].raw_coin,
            }),
        forall|k: int| #![trigger tx.unshielded_outputs[k]] 0 <= k < tx.unshielded_outputs.len() ==>
            tx_deltas(tx, slot)[tx.shielded_outputs.len() + k] == (DeltaView::CreateUnshielded(UnshieldedUtxoState {
                owner: tx.unshielded_outputs[k].owner,
                token_type: tx.unshielded_outputs[k].token_type,
                value: tx.unshielded_outputs[k].value,
                intent_hash: tx.tx_hash,
                output_index: tx.unshielded_outputs[k].output_index,
                created_slot: slot,
                created_tx_hash: tx.tx_hash,
                spent_slot: None,
                spent_tx_hash: None,
            })),
{
    assert forall|k: int| #![trigger tx.unshielded_outputs[k]] 0 <= k < tx.unshielded_outputs.len() implies
        tx_deltas(tx, slot)[tx.shielded_outputs.len() + k] == (DeltaView::CreateUnshielded(UnshieldedUtxoState {
                owner: tx.unshielded_outputs[k].owner,
                token_type: tx.unshielded_outputs[k].token_type,
                value: tx.unshielded_outputs[k].value,
                intent_hash: tx.tx_hash,
                output_index: tx.unshielded_outputs[k].output_index,
                created_slot: slot,
                created_tx_hash: tx.tx_hash,
                spent_slot: None,
                spent_tx_hash: None,
            })) by {
        let a = Seq::new(
            tx.shielded_outputs.len(),
            |i: int| DeltaView::CreateShielded(shielded_created(tx, tx.shielded_outputs[i], slot)),
        );
        let b = Seq::new(
            tx.unshielded_outputs.len(),
            |i: int| DeltaView::CreateUnshielded(unshielded_created(tx, tx.unshielded_outputs[i], slot)),
        );
        assert((a + b)[a.len() + k] == b[k]);
    }
}

/// The number of outputs of a block's transactions.
pub open spec fn output_count(txs: Seq<ParsedTxView>) -> nat
    decreases txs.len(),
{
    if txs.len() == 0 {
        0
    } else {
        output_count(txs.drop_last()) + txs.last().shielded_outputs.len() + txs.last().unshielded_outputs.len()
    }
}

/// A block makes one creation per output of its transactions, and every
/// output of every transaction is created, as that output, at the block's
/// slot, under its transaction's hash.
pub proof fn lemma_block_creates_every_output(txs: Seq<ParsedTxView>, slot: u64, i: int)
    requires
        0 <= i < txs.len(),
    ensures
        block_deltas(txs, slot).len() == output_count(txs),
        forall|k: int| #![trigger txs[i].shielded_outputs[k]] 0 <= k < txs[i].shielded_outputs.len() ==> exists|j: int|
            0 <= j < block_deltas(txs, slot).len() && #[trigger] block_deltas(txs, slot)[j] == DeltaView::CreateShielded(ShieldedUtxoView {
                intent_hash: txs[i].tx_hash,
                output_index: txs[i].shielded_outputs[k].output_index,
                ciphertexts: txs[i].shielded_outputs[k].ciphertexts,
                created_slot: slot,
                created_tx_hash: txs[i].tx_hash,
                spent_slot: None,
                spent_tx_hash: None,
                ledger_version: txs[i].shielded_outputs[k].ledger_version,
                raw_coin: txs[i].shielded_outputs[k].raw_coin,
            }),
        forall|k: int| #![trigger txs[i].unshielded_outputs[k]] 0 <= k < txs[i].unshielded_outputs.len() ==> exists|j: int|
            0 <= j < block_deltas(txs, slot).len() && #[trigger] block_deltas(txs, slot)[j] == DeltaView::CreateUnshielded(UnshieldedUtxoState {
                owner: txs[i].unshielded_outputs[k].owner,
                token_type: txs[i].unshielded_outputs[k].token_type,
                value: txs[i].unshielded_outputs[k].value,
                intent_hash: txs[i].tx_hash,
                output_index: txs[i].unshielded_outputs[k].output_index,
                created_slot: slot,
                created_tx_hash: txs[i].tx_hash,
                spent_slot: None,
                spent_tx_hash: None,
            }),
    decreases txs.len(),
{
    let prefix = block_deltas(txs.drop_last(), slot);
    let last = txs.last();
    let bd = block_deltas(txs, slot);
    lemma_tx_outputs_become_creations(last, slot);
    assert(bd == prefix + tx_deltas(last, slot));
    if i == txs.len() - 1 {
        if txs.len() > 1 {
            lemma_block_creates_every_output(txs.drop_last(), slot, 0);
        }
        assert forall|k: int| #![trigger txs[i].shielded_outputs[k]] 0 <= k < txs[i].shielded_outputs.len() implies exists|j: int|
            0 <= j < bd.len() && #[trigger] bd[j] == DeltaView::CreateShielded(ShieldedUtxoView {
                intent_hash: txs[i].tx_hash,
                output_index: txs[i].shielded_outputs[k].output_index,
                ciphertexts: txs[i].shielded_outputs[k].ciphertexts,
                created_slot: slot,
                created_tx_hash: txs[i].tx_hash,
                spent_slot: None,
                spent_tx_hash: None,
                ledger_version: txs[i].shielded_outputs[k].ledger_version,
                raw_coin: txs[i].shielded_outputs[k].raw_coin,
            }) by {
            let j = prefix.len() + k;
            assert(bd[j] == tx_deltas(last, slot)[k]);
        }
        assert forall|k: int| #![trigger txs[i].unshielded_outputs[k]] 0 <= k < txs[i].unshielded_outputs.len() implies exists|j: int|
            0 <= j < bd.len() && #[trigger] bd[j] == DeltaView::CreateUnshielded(UnshieldedUtxoState {
                owner: txs[i].unshielded_outputs[k].owner,
                token_type: txs[i].unshielded_outputs[k].token_type,
                value: txs[i].unshielded_outputs[k].value,
                intent_hash: txs[i].tx_hash,
                output_index: txs[i].unshielded_outputs[k].output_index,
                created_slot: slot,
                created_tx_hash: txs[i].tx_hash,
                spent_slot: None,
                spent_tx_hash: None,
            }) by {
            let j = prefix.len() + last.shielded_outputs.len() + k;
            assert(bd[j] == tx_deltas(last, slot)[last.shielded_outputs.len() + k]);
            assert(last.unshielded_outputs[k] == txs[i].unshielded_outputs[k]);
        }
    } else {
        lemma_block_creates_every_output(txs.drop_last(), slot, i);
        assert(txs.drop_last()[i] == txs[i]);
        assert forall|k: int| #![trigger txs[i].shielded_outputs[k]] 0 <= k < txs[i].shielded_outputs.len() implies exists|j: int|
            0 <= j < bd.len() && #[trigger] bd[j] == DeltaView::CreateShielded(ShieldedUtxoView {
                intent_hash: txs[i].tx_hash,
                output_index: txs[i].shielded_outputs[k].output_index,
                ciphertexts: txs[i].shielded_outputs[k].ciphertexts,
                created_slot: slot,
                created_tx_hash: txs[i].tx_hash,
                spent_slot: None,
                spent_tx_hash: None,
                ledger_version: txs[i].shielded_outputs[k].ledger_version,
                raw_coin: txs[i].shielded_outputs[k].raw_coin,
            }) by {
            let j = choose|j: int| 0 <= j < prefix.len() && #[trigger] prefix[j] == DeltaView::CreateShielded(ShieldedUtxoView {
                intent_hash: txs.drop_last()[i].tx_hash,
                output_index: txs.drop_last()[i].shielded_outputs[k].output_index,
                ciphertexts: txs.drop_last()[i].shielded_outputs[k].ciphertexts,
                created_slot: slot,
                created_tx_hash: txs.drop_last()[i].tx_hash,
                spent_slot: None,
                spent_tx_hash: None,
                ledger_version: txs.drop_last()[i].shielded_outputs[k].ledger_version,
                raw_coin: txs.drop_last()[i].shielded_outputs[k].raw_coin,
            });
            assert(bd[j] == prefix[j]);
        }
        assert forall|k: int| #![trigger txs[i].unshielded_outputs[k]] 0 <= k < txs[i].unshielded_outputs.len() implies exists|j: int|
            0 <= j < bd.len() && #[trigger] bd[j] == DeltaView::CreateUnshielded(UnshieldedUtxoState {
                owner: txs[i].unshielded_outputs[k].owner,
                token_type: txs[i].unshielded_outputs[k].token_type,
                value: txs[i].unshielded_outputs[k].value,
                intent_hash: txs[i].tx_hash,
                output_index: txs[i].unshielded_outputs[k].output_index,
                created_slot: slot,
                created_tx_hash: txs[i].tx_hash,
                spent_slot: None,
                spent_tx_hash: None,
            }) by {
            let j = choose|j: int| 0 <= j < prefix.len() && #[trigger] prefix[j] == DeltaView::CreateUnshielded(UnshieldedUtxoState {
                owner: txs.drop_last()[i].unshielded_outputs[k].owner,
                token_type: txs.drop_last()[i].unshielded_outputs[k].token_type,
                value: txs.drop_last()[i].unshielded_outputs[k].value,
                intent_hash: txs.drop_last()[i].tx_hash,
                output_index: txs.drop_last()[i].unshielded_outputs[k].output_index,
                created_slot: slot,
                created_tx_hash: txs.drop_last()[i].tx_hash,
                spent_slot: None,
                spent_tx_hash: None,
            });
            assert(bd[j] == prefix[j]);
        }
    }
}


/// Once a block's deltas are committed, every output of its transactions can
/// be read back from the state under its UTxO key, as the output was
/// created (unspent, at the block's slot, under its transaction's hash),
/// provided no two of the block's creations share a key.
pub proof fn lemma_committed_outputs_readable(base: Map<(u8, Seq<u8>), EntityView>, txs: Seq<ParsedTxView>, slot: u64, i: int)
    requires
        0 <= i < txs.len(),
        forall|j1: int, j2: int| 0 <= j1 < j2 < block_deltas(txs, slot).len()
            ==> store_key(#[trigger] block_deltas(txs, slot)[j1]) != store_key(#[trigger] block_deltas(txs, slot)[j2]),
    ensures
        forall|k: int| #![trigger txs[i].unshielded_outputs[k]] 0 <= k < txs[i].unshielded_outputs.len() ==> {
            let m = commit_deltas(base, block_deltas(txs, slot));
            &&& m.dom().contains((Namespace::UnshieldedUtxo.tag(), spec_utxo_entity_key(txs[i].tx_hash@, txs[i].unshielded_outputs[k].output_index)))
            &&& m[(Namespace::UnshieldedUtxo.tag(), spec_utxo_entity_key(txs[i].tx_hash@, txs[i].unshielded_outputs[k].output_index))] == EntityView::Unshielded(UnshieldedUtxoState {
                    owner: txs[i].unshielded_outputs[k].owner,
                    token_type: txs[i].unshielded_outputs[k].token_type,
                    value: txs[i].unshielded_outputs[k].value,
                    intent_hash: txs[i].tx_hash,
                    output_index: txs[i].unshielded_outputs[k].output_index,
                    created_slot: slot,
                    created_tx_hash: txs[i].tx_hash,
                    spent_slot: None,
                    spent_tx_hash: None,
                })
        },
        forall|k: int| #![trigger txs[i].shielded_outputs[k]] 0 <= k < txs[i].shielded_outputs.len() ==> {
            let m = commit_deltas(base, block_deltas(txs, slot));
            &&& m.dom().contains((Namespace::ShieldedUtxo.tag(), spec_utxo_entity_key(txs[i].tx_hash@, txs[i].shielded_outputs[k].output_index)))
            &&& m[(Namespace::ShieldedUtxo.tag(), spec_utxo_entity_key(txs[i].tx_hash@, txs[i].shielded_outputs[k].output_index))] == EntityView::Shielded(ShieldedUtxoView {
                    intent_hash: txs[i].tx_hash,
                    output_index: txs[i].shielded_outputs[k].output_index,
                    ciphertexts: txs[i].shielded_outputs[k].ciphertexts,
                    created_slot: slot,
                    created_tx_hash: txs[i].tx_hash,
                    spent_slot: None,
                    spent_tx_hash: None,
                    ledger_version: txs[i].shielded_outputs[k].ledger_version,
                    raw_coin: txs[i].shielded_outputs[k].raw_coin,
                })
        },
{
    let bd = block_deltas(txs, slot);
    lemma_block_creates_every_output(txs, slot, i);
    assert forall|k: int| #![trigger txs[i].unshielded_outputs[k]] 0 <= k < txs[i].unshielded_outputs.len() implies {
        let m = commit_deltas(base, bd);
        &&& m.dom().contains((Namespace::UnshieldedUtxo.tag(), spec_utxo_entity_key(txs[i].tx_hash@, txs[i].unshielded_outputs[k].output_index)))
        &&& m[(Namespace::UnshieldedUtxo.tag(), spec_utxo_entity_key(txs[i].tx_hash@, txs[i].unshielded_outputs[k].output_index))] == EntityView::Unshielded(UnshieldedUtxoState {
                    owner: txs[i].unshielded_outputs[k].owner,
                    token_type: txs[i].unshielded_outputs[k].token_type,
                    value: txs[i].unshielded_outputs[k].value,
                    intent_hash: txs[i].tx_hash,
                    output_index: txs[i].unshielded_outputs[k].output_index,
                    created_slot: slot,
                    created_tx_hash: txs[i].tx_hash,
                    spent_slot: None,
                    spent_tx_hash: None,
                })
    } by {
        let want = DeltaView::CreateUnshielded(UnshieldedUtxoState {
                    owner: txs[i].unshielded_outputs[k].owner,
                    token_type: txs[i].unshielded_outputs[k].token_type,
                    value: txs[i].unshielded_outputs[k].value,
                    intent_hash: txs[i].tx_hash,
                    output_index: txs[i].unshielded_outputs[k].output_index,
                    created_slot: slot,
                    created_tx_hash: txs[i].tx_hash,
                    spent_slot: None,
                    spent_tx_hash: None,
                });
        let j = choose|j: int| 0 <= j < bd.len() && #[trigger] bd[j] == want;
        assert forall|j2: int| j < j2 < bd.len() implies store_key(#[trigger] bd[j2]) != store_key(bd[j]) by {
            assert(store_key(bd[j]) != store_key(bd[j2]));
        }
        lemma_committed_creation_readable(base, bd, j);
    }
    assert forall|k: int| #![trigger txs[i].shielded_outputs[k]] 0 <= k < txs[i].shielded_outputs.len() implies {
        let m = commit_deltas(base, bd);
        &&& m.dom().contains((Namespace::ShieldedUtxo.tag(), spec_utxo_entity_key(txs[i].tx_hash@, txs[i].shielded_outputs[k].output_index)))
        &&& m[(Namespace::ShieldedUtxo.tag(), spec_utxo_entity_key(txs[i].tx_hash@, txs[i].shielded_outputs[k].output_index))] == EntityView::Shielded(ShieldedUtxoView {
                    intent_hash: txs[i].tx_hash,
                    output_index: txs[i].shielded_outputs[k].output_index,
                    ciphertexts: txs[i].shielded_outputs[k].ciphertexts,
                    created_slot: slot,
                    created_tx_hash: txs[i].tx_hash,
                    spent_slot: None,
                    spent_tx_hash: None,
                    ledger_version: txs[i].shielded_outputs[k].ledger_version,
                    raw_coin: txs[i].shielded_outputs[k].raw_coin,
                })
    } by {
        let want = DeltaView::CreateShielded(ShieldedUtxoView {
                    intent_hash: txs[i].tx_hash,
                    output_index: txs[i].shielded_outputs[k].output_index,
                    ciphertexts: txs[i].shielded_outputs[k].ciphertexts,
                    created_slot: slot,
                    created_tx_hash: txs[i].tx_hash,
                    spent_slot: None,
                    spent_tx_hash: None,
                    ledger_version: txs[i].shielded_outputs[k].ledger_version,
                    raw_coin: txs[i].shielded_outputs[k].raw_coin,
                });
        let j = choose|j: int| 0 <= j < bd.len() && #[trigger] bd[j] == want;
        assert forall|j2: int| j < j2 < bd.len() implies store_key(#[trigger] bd[j2]) != store_key(bd[j]) by {
            assert(store_key(bd[j]) != store_key(bd[j2]));
        }
        lemma_committed_creation_readable(base, bd, j);
    }
}

} // verus!

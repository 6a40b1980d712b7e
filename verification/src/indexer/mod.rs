//! The Midnight indexer: it follows finalized blocks, extracts unshielded
//! UTxOs, Zswap coin commitments and nullifiers from their standard
//! transactions, and stores them by derived keys.

pub mod api;

use vstd::prelude::*;
use crate::chain_types::{BlockSlot, ChainPoint, UndoBlockData};
use crate::model::be32;
use crate::store::{ArchiveStore, EntityStore};
use crate::text::{decimal, hex_encode, hex_lower, u128_decimal};

verus! {

/// Where the indexer connects and keeps its data.
#[derive(Debug)]
pub struct MidnightConfig {
    pub rpc_url: String,
    pub data_dir: String,
}

impl MidnightConfig {
    /// The preprod network's RPC endpoint and `./data/midnight`.
    pub fn default() -> (c: Self)
        ensures
            c.rpc_url@ == "wss://rpc.preprod.midnight.network"@,
            c.data_dir@ == "./data/midnight"@,
    {
        MidnightConfig {
            rpc_url: String::from_str("wss://rpc.preprod.midnight.network"),
            data_dir: String::from_str("./data/midnight"),
        }
    }
}

/// A finalized block: number, hash and the concatenated extrinsic bytes.
#[derive(Debug)]
pub struct MidnightBlock {
    pub number: u64,
    pub hash: [u8; 32],
    pub raw: Vec<u8>,
}

impl MidnightBlock {
    /// The block's slot, which is its number.
    pub fn slot(&self) -> (r: u64)
        ensures
            r == self.number,
    {
        self.number
    }

    /// The block's hash.
    pub fn hash(&self) -> (r: [u8; 32])
        ensures
            r == self.hash,
    {
        self.hash
    }

    /// The block's raw bytes.
    pub fn raw(&self) -> (r: Vec<u8>)
        ensures
            r@ == self.raw@,
    {
        self.raw.clone()
    }

    /// The outputs of other blocks this block needs: none.
    pub fn depends_on(&self) -> (r: Vec<([u8; 32], u32)>)
        ensures
            r@.len() == 0,
    {
        Vec::new()
    }
}

/// The concatenation of byte strings.
pub open spec fn concat_all(parts: Seq<Seq<u8>>) -> Seq<u8>
    decreases parts.len(),
{
    if parts.len() == 0 {
        Seq::empty()
    } else {
        concat_all(parts.drop_last()) + parts.last()
    }
}

/// A block's payload as archived: its extrinsics' bytes, one after another.
pub fn concat_extrinsics(extrinsics: &Vec<Vec<u8>>) -> (r: Vec<u8>)
    ensures
        r@ == concat_all(extrinsics@.map_values(|e: Vec<u8>| e@)),
{
    let ghost parts = extrinsics@.map_values(|e: Vec<u8>| e@);
    let mut r: Vec<u8> = Vec::new();
    let mut i: usize = 0;
    while i < extrinsics.len()
        invariant
            i <= extrinsics.len(),
            parts == extrinsics@.map_values(|e: Vec<u8>| e@),
            r@ == concat_all(parts.take(i as int)),
        decreases extrinsics.len() - i,
    {
        let ext = &extrinsics[i];
        let mut j: usize = 0;
        let ghost before = r@;
        while j < ext.len()
            invariant
                j <= ext.len(),
                r@ == before + ext@.subrange(0, j as int),
            decreases ext.len() - j,
        {
            r.push(ext[j]);
            j = j + 1;
        }
        proof {
            assert(ext@.subrange(0, ext@.len() as int) == ext@);
            assert(parts.take(i + 1).drop_last() =~= parts.take(i as int));
            assert(parts.take(i + 1).last() == ext@);
        }
        i = i + 1;
    }
    assert(parts.take(extrinsics.len() as int) =~= parts);
    r
}

/// An unshielded UTxO.
#[derive(Clone, Copy, Debug)]
pub struct UnshieldedUtxo {
    pub intent_hash: [u8; 32],
    pub output_index: u32,
    pub amount: u128,
    pub owner: [u8; 32],
}

/// A Zswap coin commitment.
#[derive(Clone, Copy, Debug)]
pub struct ZswapCommitment {
    pub hash: [u8; 32],
}

/// A Zswap nullifier.
#[derive(Clone, Copy, Debug)]
pub struct ZswapNullifier {
    pub hash: [u8; 32],
}

/// The indexer's namespaces.
#[derive(Clone, Copy, Debug, PartialEq, Eq, Structural)]
pub enum IndexNamespace {
    /// `unshielded_utxo`
    UnshieldedUtxo,
    /// `zswap_commitment`
    ZswapCommitment,
    /// `zswap_nullifier`
    ZswapNullifier,
}

impl IndexNamespace {
    /// The store's tag for this namespace.
    pub open spec fn tag(self) -> u8 {
        match self {
            IndexNamespace::UnshieldedUtxo => 0,
            IndexNamespace::ZswapCommitment => 1,
            IndexNamespace::ZswapNullifier => 2,
        }
    }

    /// The store's tag for this namespace.
    pub fn store_tag(&self) -> (r: u8)
        ensures
            r == self.tag(),
    {
        match self {
            IndexNamespace::UnshieldedUtxo => 0,
            IndexNamespace::ZswapCommitment => 1,
            IndexNamespace::ZswapNullifier => 2,
        }
    }

    /// The namespace's name.
    pub fn name(&self) -> (r: &'static str)
        ensures
            r@ == match self {
                IndexNamespace::UnshieldedUtxo => "unshielded_utxo"@,
                IndexNamespace::ZswapCommitment => "zswap_commitment"@,
                IndexNamespace::ZswapNullifier => "zswap_nullifier"@,
            },
    {
        match self {
            IndexNamespace::UnshieldedUtxo => "unshielded_utxo",
            IndexNamespace::ZswapCommitment => "zswap_commitment",
            IndexNamespace::ZswapNullifier => "zswap_nullifier",
        }
    }
}

/// The new value of an indexed entity (`None` removes it).
#[derive(Clone, Copy, Debug)]
pub enum MidnightDeltaValue {
    UnshieldedUtxo(Option<UnshieldedUtxo>),
    ZswapCommitment(Option<ZswapCommitment>),
    ZswapNullifier(Option<ZswapNullifier>),
}

/// A change to one indexed entity: its key and new value.
#[derive(Clone, Copy, Debug)]
pub struct MidnightDelta {
    pub key: [u8; 32],
    pub new_value: MidnightDeltaValue,
}

/// The namespace of a delta's value.
pub open spec fn value_namespace(v: MidnightDeltaValue) -> IndexNamespace {
    match v {
        MidnightDeltaValue::UnshieldedUtxo(_) => IndexNamespace::UnshieldedUtxo,
        MidnightDeltaValue::ZswapCommitment(_) => IndexNamespace::ZswapCommitment,
        MidnightDeltaValue::ZswapNullifier(_) => IndexNamespace::ZswapNullifier,
    }
}

/// An indexed entity as stored.
#[derive(Clone, Copy, Debug)]
pub enum IndexedEntity {
    UnshieldedUtxo(UnshieldedUtxo),
    ZswapCommitment(ZswapCommitment),
    ZswapNullifier(ZswapNullifier),
}

impl View for IndexedEntity {
    type V = IndexedEntity;

    open spec fn view(&self) -> IndexedEntity {
        *self
    }
}

/// The entity a delta's value stores, if any.
pub open spec fn value_entity(v: MidnightDeltaValue) -> Option<IndexedEntity> {
    match v {
        MidnightDeltaValue::UnshieldedUtxo(Some(u)) => Some(IndexedEntity::UnshieldedUtxo(u)),
        MidnightDeltaValue::ZswapCommitment(Some(c)) => Some(IndexedEntity::ZswapCommitment(c)),
        MidnightDeltaValue::ZswapNullifier(Some(n)) => Some(IndexedEntity::ZswapNullifier(n)),
        _ => None,
    }
}

impl MidnightDelta {
    /// The namespace (by the kind of value) and key this delta changes.
    pub fn ns_key(&self) -> (r: (IndexNamespace, [u8; 32]))
        ensures
            r.0 == value_namespace(self.new_value),
            r.1 == self.key,
    {
        let ns = match &self.new_value {
            MidnightDeltaValue::UnshieldedUtxo(_) => IndexNamespace::UnshieldedUtxo,
            MidnightDeltaValue::ZswapCommitment(_) => IndexNamespace::ZswapCommitment,
            MidnightDeltaValue::ZswapNullifier(_) => IndexNamespace::ZswapNullifier,
        };
        (ns, self.key)
    }

    /// Applying a delta to a cached entity does nothing; deltas reach the
    /// state by being written.
    pub fn apply(&mut self, entity: &mut Option<UnshieldedUtxo>)
        ensures
            *final(self) == *old(self),
            *final(entity) == *old(entity),
    {
    }
}

/// `x` as two big-endian bytes.
pub open spec fn be16(x: u16) -> Seq<u8> {
    seq![(x / 256) as u8, (x % 256) as u8]
}

/// The key of the unshielded UTxO at output `idx` of the intent with hash
/// `intent_hash`: the hash's first 28 bytes, then the index (as `u32`) in
/// big-endian order.
pub open spec fn spec_utxo_key(intent_hash: [u8; 32], idx: int) -> Seq<u8> {
    intent_hash@.subrange(0, 28) + be32(idx as u32)
}

/// The key of the coin at position `idx` of Zswap offer `segment` in the
/// block with hash `block_hash`: the hash's first 28 bytes, the segment and
/// the position (as `u16`), both big-endian.
pub open spec fn spec_coin_key(block_hash: [u8; 32], segment: u16, idx: int) -> Seq<u8> {
    block_hash@.subrange(0, 28) + be16(segment) + be16(idx as u16)
}

/// Builds an unshielded UTxO key.
pub fn utxo_key(intent_hash: &[u8; 32], idx: u32) -> (k: [u8; 32])
    ensures
        k@ == intent_hash@.subrange(0, 28) + be32(idx),
{
    let mut k = [0u8; 32];
    let mut i: usize = 0;
    while i < 28
        invariant
            i <= 28,
            k@.len() == 32,
            forall|j: int| 0 <= j < i ==> k@[j] == intent_hash@[j],
        decreases 28 - i,
    {
        k[i] = intent_hash[i];
        i = i + 1;
    }
    k[28] = (idx / 0x100_0000) as u8;
    k[29] = ((idx / 0x1_0000) % 256) as u8;
    k[30] = ((idx / 0x100) % 256) as u8;
    k[31] = (idx % 256) as u8;
    assert(k@ =~= intent_hash@.subrange(0, 28) + be32(idx));
    k
}

/// Builds a coin key.
pub fn coin_key(block_hash: &[u8; 32], segment: u16, idx: u16) -> (k: [u8; 32])
    ensures
        k@ == block_hash@.subrange(0, 28) + be16(segment) + be16(idx),
{
    let mut k = [0u8; 32];
    let mut i: usize = 0;
    while i < 28
        invariant
            i <= 28,
            k@.len() == 32,
            forall|j: int| 0 <= j < i ==> k@[j] == block_hash@[j],
        decreases 28 - i,
    {
        k[i] = block_hash[i];
        i = i + 1;
    }
    k[28] = (segment / 256) as u8;
    k[29] = (segment % 256) as u8;
    k[30] = (idx / 256) as u8;
    k[31] = (idx % 256) as u8;
    assert(k@ =~= block_hash@.subrange(0, 28) + be16(segment) + be16(idx));
    k
}

/// An unshielded output of an intent's guaranteed part: value and owner.
#[derive(Clone, Copy, Debug)]
pub struct LedgerOutput {
    pub value: u128,
    pub owner: [u8; 32],
}

/// An intent of a standard transaction, with its hash (as the ledger computes
/// it for the segment, proofs and signatures erased) and its guaranteed
/// unshielded outputs.
#[derive(Debug)]
pub struct LedgerIntent {
    pub segment_id: u16,
    pub intent_hash: [u8; 32],
    pub guaranteed_outputs: Vec<LedgerOutput>,
}

/// A Zswap offer: the commitments of its outputs and the nullifiers of its inputs.
#[derive(Debug)]
pub struct ZswapOffer {
    pub output_commitments: Vec<[u8; 32]>,
    pub input_nullifiers: Vec<[u8; 32]>,
}

/// A standard transaction: its intents, its guaranteed offer and its
/// fallible offers.
#[derive(Debug)]
pub struct StandardTransaction {
    pub intents: Vec<LedgerIntent>,
    pub guaranteed_coins: Option<ZswapOffer>,
    pub fallible_coins: Vec<ZswapOffer>,
}

/// A Midnight transaction of a block.
#[derive(Debug)]
pub enum LedgerTransaction {
    Standard(StandardTransaction),
    /// Any other kind of transaction; it yields no deltas.
    Other,
}

/// The value of an intent.
pub struct IntentView {
    pub segment_id: u16,
    pub intent_hash: [u8; 32],
    pub outputs: Seq<LedgerOutput>,
}

/// The value of an offer.
pub struct OfferView {
    pub outputs: Seq<[u8; 32]>,
    pub inputs: Seq<[u8; 32]>,
}

/// The value of a standard transaction.
pub struct StandardTxView {
    pub intents: Seq<IntentView>,
    pub guaranteed: Option<OfferView>,
    pub fallible: Seq<OfferView>,
}

impl View for LedgerIntent {
    type V = IntentView;

    open spec fn view(&self) -> IntentView {
        IntentView { segment_id: self.segment_id, intent_hash: self.intent_hash, outputs: self.guaranteed_outputs@ }
    }
}

impl View for ZswapOffer {
    type V = OfferView;

    open spec fn view(&self) -> OfferView {
        OfferView { outputs: self.output_commitments@, inputs: self.input_nullifiers@ }
    }
}

impl View for StandardTransaction {
    type V = StandardTxView;

    open spec fn view(&self) -> StandardTxView {
        StandardTxView {
            intents: self.intents@.map_values(|i: LedgerIntent| i@),
            guaranteed: match self.guaranteed_coins {
                Some(g) => Some(g@),
                None => None,
            },
            fallible: self.fallible_coins@.map_values(|o: ZswapOffer| o@),
        }
    }
}

/// A delta's key and value.
pub struct IndexDeltaView {
    pub key: Seq<u8>,
    pub new_value: MidnightDeltaValue,
}

impl View for MidnightDelta {
    type V = IndexDeltaView;

    open spec fn view(&self) -> IndexDeltaView {
        IndexDeltaView { key: self.key@, new_value: self.new_value }
    }
}

/// The views of a list of deltas.
pub open spec fn index_deltas_view(ds: Seq<MidnightDelta>) -> Seq<IndexDeltaView> {
    ds.map_values(|d: MidnightDelta| d@)
}

/// The deltas of an intent: one unshielded UTxO per guaranteed output.
pub open spec fn intent_deltas(it: IntentView) -> Seq<IndexDeltaView> {
    Seq::new(it.outputs.len(), |i: int| IndexDeltaView {
        key: spec_utxo_key(it.intent_hash, i),
        new_value: MidnightDeltaValue::UnshieldedUtxo(Some(UnshieldedUtxo {
            intent_hash: it.intent_hash,
            output_index: i as u32,
            amount: it.outputs[i].value,
            owner: it.outputs[i].owner,
        })),
    })
}

/// The deltas of intents, in order.
pub open spec fn intents_deltas(its: Seq<IntentView>) -> Seq<IndexDeltaView>
    decreases its.len(),
{
    if its.len() == 0 {
        Seq::empty()
    } else {
        intents_deltas(its.drop_last()) + intent_deltas(its.last())
    }
}

/// The deltas of an offer in segment `segment`: one commitment per output,
/// then one nullifier per input.
pub open spec fn offer_deltas(block_hash: [u8; 32], segment: u16, o: OfferView) -> Seq<IndexDeltaView> {
    Seq::new(o.outputs.len(), |i: int| IndexDeltaView {
        key: spec_coin_key(block_hash, segment, i),
        new_value: MidnightDeltaValue::ZswapCommitment(Some(ZswapCommitment { hash: o.outputs[i] })),
    }) + Seq::new(o.inputs.len(), |i: int| IndexDeltaView {
        key: spec_coin_key(block_hash, segment, i),
        new_value: MidnightDeltaValue::ZswapNullifier(Some(ZswapNullifier { hash: o.inputs[i] })),
    })
}

/// The deltas of the fallible offers, the offer at position `i` in segment
/// `i + 1` (as `u16`).
pub open spec fn fallible_deltas(block_hash: [u8; 32], offers: Seq<OfferView>) -> Seq<IndexDeltaView>
    decreases offers.len(),
{
    if offers.len() == 0 {
        Seq::empty()
    } else {
        fallible_deltas(block_hash, offers.drop_last())
            + offer_deltas(block_hash, offers.len() as u16, offers.last())
    }
}

/// The deltas of a standard transaction: its intents' UTxOs, then its
/// guaranteed offer (segment 0), then its fallible offers.
pub open spec fn standard_deltas(block_hash: [u8; 32], t: StandardTxView) -> Seq<IndexDeltaView> {
    intents_deltas(t.intents) + match t.guaranteed {
        Some(g) => offer_deltas(block_hash, 0, g),
        None => Seq::empty(),
    } + fallible_deltas(block_hash, t.fallible)
}

/// The deltas of a transaction.
pub open spec fn tx_index_deltas(block_hash: [u8; 32], tx: LedgerTransaction) -> Seq<IndexDeltaView> {
    match tx {
        LedgerTransaction::Standard(s) => standard_deltas(block_hash, s@),
        LedgerTransaction::Other => Seq::empty(),
    }
}

/// The deltas of a block's transactions, in order.
pub open spec fn block_index_deltas(block_hash: [u8; 32], txs: Seq<LedgerTransaction>) -> Seq<IndexDeltaView>
    decreases txs.len(),
{
    if txs.len() == 0 {
        Seq::empty()
    } else {
        block_index_deltas(block_hash, txs.drop_last()) + tx_index_deltas(block_hash, txs.last())
    }
}

fn push_offer_deltas(block_hash: &[u8; 32], segment: u16, offer: &ZswapOffer, deltas: &mut Vec<MidnightDelta>)
    ensures
        index_deltas_view(final(deltas)@) == index_deltas_view(old(deltas)@)
            + offer_deltas(*block_hash, segment, offer@),
{
    let ghost o = offer@;
    let ghost start = index_deltas_view(deltas@);
    let mut i: usize = 0;
    while i < offer.output_commitments.len()
        invariant
            i <= offer.output_commitments.len(),
            o == offer@,
            index_deltas_view(deltas@) == start + Seq::new(i as nat, |k: int| IndexDeltaView {
                key: spec_coin_key(*block_hash, segment, k),
                new_value: MidnightDeltaValue::ZswapCommitment(Some(ZswapCommitment { hash: o.outputs[k] })),
            }),
        decreases offer.output_commitments.len() - i,
    {
        let key = coin_key(block_hash, segment, i as u16);
        let ghost before = deltas@;
        deltas.push(MidnightDelta {
            key,
            new_value: MidnightDeltaValue::ZswapCommitment(Some(ZswapCommitment { hash: offer.output_commitments[i] })),
        });
        assert(index_deltas_view(deltas@) =~= index_deltas_view(before).push(deltas@[deltas@.len() - 1]@));
        i = i + 1;
        assert(index_deltas_view(deltas@) =~= start + Seq::new(i as nat, |k: int| IndexDeltaView {
            key: spec_coin_key(*block_hash, segment, k),
            new_value: MidnightDeltaValue::ZswapCommitment(Some(ZswapCommitment { hash: o.outputs[k] })),
        }));
    }
    let ghost mid = index_deltas_view(deltas@);
    let mut i: usize = 0;
    while i < offer.input_nullifiers.len()
        invariant
            i <= offer.input_nullifiers.len(),
            o == offer@,
            index_deltas_view(deltas@) == mid + Seq::new(i as nat, |k: int| IndexDeltaView {
                key: spec_coin_key(*block_hash, segment, k),
                new_value: MidnightDeltaValue::ZswapNullifier(Some(ZswapNullifier { hash: o.inputs[k] })),
            }),
        decreases offer.input_nullifiers.len() - i,
    {
        let key = coin_key(block_hash, segment, i as u16);
        let ghost before = deltas@;
        deltas.push(MidnightDelta {
            key,
            new_value: MidnightDeltaValue::ZswapNullifier(Some(ZswapNullifier { hash: offer.input_nullifiers[i] })),
        });
        assert(index_deltas_view(deltas@) =~= index_deltas_view(before).push(deltas@[deltas@.len() - 1]@));
        i = i + 1;
        assert(index_deltas_view(deltas@) =~= mid + Seq::new(i as nat, |k: int| IndexDeltaView {
            key: spec_coin_key(*block_hash, segment, k),
            new_value: MidnightDeltaValue::ZswapNullifier(Some(ZswapNullifier { hash: o.inputs[k] })),
        }));
    }
}

fn push_intent_deltas(intent: &LedgerIntent, deltas: &mut Vec<MidnightDelta>)
    ensures
        index_deltas_view(final(deltas)@) == index_deltas_view(old(deltas)@) + intent_deltas(intent@),
{
    let ghost it = intent@;
    let ghost start = index_deltas_view(deltas@);
    let mut i: usize = 0;
    while i < intent.guaranteed_outputs.len()
        invariant
            i <= intent.guaranteed_outputs.len(),
            it == intent@,
            index_deltas_view(deltas@) == start + intent_deltas(it).take(i as int),
        decreases intent.guaranteed_outputs.len() - i,
    {
        let output = intent.guaranteed_outputs[i];
        let key = utxo_key(&intent.intent_hash, i as u32);
        let ghost before = deltas@;
        deltas.push(MidnightDelta {
            key,
            new_value: MidnightDeltaValue::UnshieldedUtxo(Some(UnshieldedUtxo {
                intent_hash: intent.intent_hash,
                output_index: i as u32,
                amount: output.value,
                owner: output.owner,
            })),
        });
        assert(index_deltas_view(deltas@) =~= index_deltas_view(before).push(deltas@[deltas@.len() - 1]@));
        assert(intent_deltas(it).take(i + 1) =~= intent_deltas(it).take(i as int).push(intent_deltas(it)[i as int]));
        i = i + 1;
    }
    assert(intent_deltas(it).take(i as int) =~= intent_deltas(it));
}

fn push_tx_deltas(block_hash: &[u8; 32], tx: &LedgerTransaction, deltas: &mut Vec<MidnightDelta>)
    ensures
        index_deltas_view(final(deltas)@) == index_deltas_view(old(deltas)@) + tx_index_deltas(*block_hash, *tx),
{
    match tx {
        LedgerTransaction::Standard(std_tx) => {
            let ghost before = index_deltas_view(deltas@);
            let ghost sv = std_tx@;
            let mut k: usize = 0;
            while k < std_tx.intents.len()
                invariant
                    k <= std_tx.intents.len(),
                    sv == std_tx@,
                    index_deltas_view(deltas@) == before + intents_deltas(sv.intents.take(k as int)),
                decreases std_tx.intents.len() - k,
            {
                push_intent_deltas(&std_tx.intents[k], deltas);
                assert(sv.intents.take(k + 1).drop_last() =~= sv.intents.take(k as int));
                k = k + 1;
            }
            assert(sv.intents.take(k as int) =~= sv.intents);
            match &std_tx.guaranteed_coins {
                Some(gc) => push_offer_deltas(block_hash, 0, gc, deltas),
                None => {},
            }
            let ghost after_guaranteed = index_deltas_view(deltas@);
            let mut f: usize = 0;
            while f < std_tx.fallible_coins.len()
                invariant
                    f <= std_tx.fallible_coins.len(),
                    sv == std_tx@,
                    index_deltas_view(deltas@) == after_guaranteed
                        + fallible_deltas(*block_hash, sv.fallible.take(f as int)),
                decreases std_tx.fallible_coins.len() - f,
            {
                let base_idx = (f + 1) as u16;
                push_offer_deltas(block_hash, base_idx, &std_tx.fallible_coins[f], deltas);
                assert(sv.fallible.take(f + 1).drop_last() =~= sv.fallible.take(f as int));
                f = f + 1;
            }
            assert(sv.fallible.take(f as int) =~= sv.fallible);
        },
        LedgerTransaction::Other => {},
    }
}

/// The indexing work for one finalized block.
pub struct MidnightWorkUnit {
    pub number: u64,
    pub block_hash: [u8; 32],
    pub raw: Vec<u8>,
    pub deltas: Vec<MidnightDelta>,
}

impl MidnightWorkUnit {
    /// Extracts the deltas of the block's Midnight transactions: for each
    /// standard transaction, an unshielded UTxO per guaranteed output of each
    /// intent, then a commitment per output and a nullifier per input of the
    /// guaranteed offer and of each fallible offer. `txs` are the block's
    /// extrinsics that are Midnight transactions and decode.
    pub fn compute_async(&mut self, txs: &Vec<LedgerTransaction>)
        ensures
            final(self).number == old(self).number,
            final(self).block_hash == old(self).block_hash,
            final(self).raw == old(self).raw,
            index_deltas_view(final(self).deltas@) == index_deltas_view(old(self).deltas@)
                + block_index_deltas(old(self).block_hash, txs@),
    {
        let ghost start = index_deltas_view(self.deltas@);
        let mut t: usize = 0;
        while t < txs.len()
            invariant
                t <= txs.len(),
                self.number == old(self).number,
                self.block_hash == old(self).block_hash,
                self.raw == old(self).raw,
                index_deltas_view(self.deltas@) == start + block_index_deltas(self.block_hash, txs@.take(t as int)),
            decreases txs.len() - t,
        {
            push_tx_deltas(&self.block_hash, &txs[t], &mut self.deltas);
            assert(txs@.take(t + 1).drop_last() =~= txs@.take(t as int));
            t = t + 1;
        }
        assert(txs@.take(t as int) =~= txs@);
    }
}

/// The entities after writing the deltas `ds` in order onto `m`: a value
/// is stored under its namespace and key, a `None` removes what was there.
pub open spec fn index_write_all(m: Map<(u8, Seq<u8>), IndexedEntity>, ds: Seq<IndexDeltaView>) -> Map<(u8, Seq<u8>), IndexedEntity>
    decreases ds.len(),
{
    if ds.len() == 0 {
        m
    } else {
        let before = index_write_all(m, ds.drop_last());
        let d = ds.last();
        let k = (value_namespace(d.new_value).tag(), d.key);
        match value_entity(d.new_value) {
            Some(e) => before.insert(k, e),
            None => before.remove(k),
        }
    }
}

impl MidnightWorkUnit {
    /// Work for the block `number` with hash `block_hash` and payload `raw`.
    pub fn new(number: u64, block_hash: [u8; 32], raw: Vec<u8>) -> (w: Self)
        ensures
            w.number == number,
            w.block_hash == block_hash,
            w.raw == raw,
            w.deltas@.len() == 0,
    {
        MidnightWorkUnit { number, block_hash, raw, deltas: Vec::new() }
    }

    /// Writes the deltas to the state, in order.
    pub fn commit_state_with_domain(&self, state: &mut EntityStore<IndexedEntity>)
        ensures
            final(state).entities() == index_write_all(old(state).entities(), index_deltas_view(self.deltas@)),
            final(state).cursor_point() == old(state).cursor_point(),
    {
        let ghost base = state.entities();
        let ghost ds = index_deltas_view(self.deltas@);
        let mut i: usize = 0;
        while i < self.deltas.len()
            invariant
                i <= self.deltas.len(),
                ds == index_deltas_view(self.deltas@),
                state.entities() == index_write_all(base, ds.take(i as int)),
                state.cursor_point() == old(state).cursor_point(),
            decreases self.deltas.len() - i,
        {
            let delta = self.deltas[i];
            let (ns, key) = delta.ns_key();
            let tag = ns.store_tag();
            proof {
                assert(ds.take(i + 1).drop_last() =~= ds.take(i as int));
                assert(ds.take(i + 1).last() == delta@);
            }
            match delta.new_value {
                MidnightDeltaValue::UnshieldedUtxo(Some(u)) => state.write(tag, &key, IndexedEntity::UnshieldedUtxo(u)),
                MidnightDeltaValue::ZswapCommitment(Some(c)) => state.write(tag, &key, IndexedEntity::ZswapCommitment(c)),
                MidnightDeltaValue::ZswapNullifier(Some(n)) => state.write(tag, &key, IndexedEntity::ZswapNullifier(n)),
                _ => state.delete(tag, &key),
            }
            i = i + 1;
        }
        assert(ds.take(ds.len() as int) =~= ds);
    }

    /// Archives the block's payload at its number and point.
    pub fn commit_archive_with_domain(&self, archive: &mut ArchiveStore)
        ensures
            final(archive).contents().contains(
                (self.number, ChainPoint::Specific(self.number, self.block_hash), self.raw@),
            ),
            forall|e: (u64, ChainPoint, Seq<u8>)| #[trigger] final(archive).contents().contains(e) && e.0 != self.number
                ==> old(archive).contents().contains(e),
            forall|e: (u64, ChainPoint, Seq<u8>)| #[trigger] old(archive).contents().contains(e) && e.0 != self.number
                ==> final(archive).contents().contains(e),
    {
        let point = ChainPoint::Specific(self.number, self.block_hash);
        archive.apply(self.number, point, self.raw.clone());
    }
}

/// The indexer's chain logic: a queue of received blocks.
pub struct MidnightLogic {
    pub queue: Vec<MidnightBlock>,
}

impl MidnightLogic {
    /// An empty queue.
    pub fn initialize() -> (r: Self)
        ensures
            r.queue@.len() == 0,
    {
        MidnightLogic { queue: Vec::new() }
    }

    /// Whether another block fits: fewer than 100 are queued.
    pub fn can_receive_block(&self) -> (r: bool)
        ensures
            r == (self.queue@.len() < 100),
    {
        self.queue.len() < 100
    }

    /// Blocks arrive through the subscription, not through raw bytes: the
    /// bytes are ignored and slot 0 is reported.
    pub fn receive_block(&mut self, raw: &[u8]) -> (r: Result<BlockSlot, crate::chain::MidnightError>)
        ensures
            r matches Ok(0u64),
            final(self).queue == old(self).queue,
    {
        Ok(0)
    }

    /// Work is not handed out through the queue: none.
    pub fn pop_work(&mut self) -> (r: Option<MidnightWorkUnit>)
        ensures
            r is None,
            final(self).queue == old(self).queue,
    {
        None
    }

    /// Undoing a block changes nothing.
    pub fn compute_undo(point: ChainPoint) -> (r: UndoBlockData)
        ensures
            r.index_cursor is None,
            r.tx_hashes@.len() == 0,
    {
        UndoBlockData { index_cursor: None, tx_hashes: Vec::new() }
    }

    /// No slots are kept mutable.
    pub fn mutable_slots() -> (r: BlockSlot)
        ensures
            r == 0,
    {
        0
    }

    /// A transaction body yields no produced outputs.
    pub fn tx_produced_utxos(era_body: &[u8]) -> (r: Vec<(([u8; 32], u32), Vec<u8>)>)
        ensures
            r@.len() == 0,
    {
        Vec::new()
    }

    /// Nor consumed references.
    pub fn tx_consumed_ref(era_body: &[u8]) -> (r: Vec<([u8; 32], u32)>)
        ensures
            r@.len() == 0,
    {
        Vec::new()
    }

    /// Finding a transaction in a block is not offered: never found.
    pub fn find_tx_in_block(block: &[u8], tx_hash: &[u8]) -> (r: Result<Option<(Vec<u8>, usize)>, crate::chain::MidnightError>)
        ensures
            r matches Ok(None),
    {
        Ok(None)
    }
}

/// Distinct output positions of an intent (below 2^32) get distinct UTxO keys.
pub proof fn lemma_utxo_keys_distinct(intent_hash: [u8; 32], i: int, j: int)
    requires
        0 <= i < 0x1_0000_0000,
        0 <= j < 0x1_0000_0000,
        i != j,
    ensures
        spec_utxo_key(intent_hash, i) != spec_utxo_key(intent_hash, j),
{
    let a = i as u32;
    let b = j as u32;
    assert(a != b);
    let ka = spec_utxo_key(intent_hash, i);
    let kb = spec_utxo_key(intent_hash, j);
    if ka == kb {
        assert(ka[28] == kb[28] && ka[29] == kb[29] && ka[30] == kb[30] && ka[31] == kb[31]);
        assert(((a / 0x100_0000) as u8 == (b / 0x100_0000) as u8 && ((a / 0x1_0000) % 256) as u8 == ((b / 0x1_0000) % 256) as u8
            && ((a / 0x100) % 256) as u8 == ((b / 0x100) % 256) as u8 && (a % 256) as u8 == (b % 256) as u8) ==> a == b) by (bit_vector);
    }
}

/// Within a block, coins at distinct (segment, position) pairs (positions
/// below 2^16) get distinct keys.
pub proof fn lemma_coin_keys_distinct(block_hash: [u8; 32], s1: u16, i: int, s2: u16, j: int)
    requires
        0 <= i < 0x1_0000,
        0 <= j < 0x1_0000,
        s1 != s2 || i != j,
    ensures
        spec_coin_key(block_hash, s1, i) != spec_coin_key(block_hash, s2, j),
{
    let a = i as u16;
    let b = j as u16;
    let ka = spec_coin_key(block_hash, s1, i);
    let kb = spec_coin_key(block_hash, s2, j);
    if ka == kb {
        assert(ka[28] == kb[28] && ka[29] == kb[29] && ka[30] == kb[30] && ka[31] == kb[31]);
        assert(((s1 / 256) as u8 == (s2 / 256) as u8 && (s1 % 256) as u8 == (s2 % 256) as u8) ==> s1 == s2) by (bit_vector);
        assert(((a / 256) as u8 == (b / 256) as u8 && (a % 256) as u8 == (b % 256) as u8) ==> a == b) by (bit_vector);
    }
}

/// The network the indexer follows: an id and the genesis block's hash.
#[derive(Clone, Copy, Debug)]
pub struct MidnightGenesis {
    pub chain_id: u32,
    pub genesis_hash: [u8; 32],
}

impl MidnightGenesis {
    /// The network's id.
    pub fn chain_id(&self) -> (r: u32)
        ensures
            r == self.chain_id,
    {
        self.chain_id
    }
}

impl MidnightWorkUnit {
    /// The unit's name.
    pub fn name(&self) -> (r: &'static str)
        ensures
            r@ == "midnight-work-unit"@,
    {
        "midnight-work-unit"
    }
}

/// Indexes one finalized block: the block's extrinsics are concatenated into
/// its payload, the deltas of its Midnight transactions `txs` are extracted,
/// written to the state, and the payload archived. The work is returned for
/// reporting.
pub fn index_block(
    state: &mut EntityStore<IndexedEntity>,
    archive: &mut ArchiveStore,
    number: u64,
    block_hash: [u8; 32],
    extrinsics: &Vec<Vec<u8>>,
    txs: &Vec<LedgerTransaction>,
) -> (w: MidnightWorkUnit)
    ensures
        w.number == number,
        w.block_hash == block_hash,
        w.raw@ == concat_all(extrinsics@.map_values(|e: Vec<u8>| e@)),
        index_deltas_view(w.deltas@) == block_index_deltas(block_hash, txs@),
        final(state).entities() == index_write_all(old(state).entities(), index_deltas_view(w.deltas@)),
        final(state).cursor_point() == old(state).cursor_point(),
        final(archive).contents().contains((number, ChainPoint::Specific(number, block_hash), w.raw@)),
        forall|e: (u64, ChainPoint, Seq<u8>)| #[trigger] final(archive).contents().contains(e) && e.0 != number
            ==> old(archive).contents().contains(e),
        forall|e: (u64, ChainPoint, Seq<u8>)| #[trigger] old(archive).contents().contains(e) && e.0 != number
            ==> final(archive).contents().contains(e),
{
    let raw = concat_extrinsics(extrinsics);
    let mut work = MidnightWorkUnit::new(number, block_hash, raw);
    work.compute_async(txs);
    assert(index_deltas_view(work.deltas@) =~= block_index_deltas(block_hash, txs@));
    work.commit_state_with_domain(state);
    work.commit_archive_with_domain(archive);
    work
}

/// The report line for an indexed delta: owner and amount of a new UTxO, the
/// hash of a new commitment or nullifier; removals are not reported.
pub fn delta_report(delta: &MidnightDelta) -> (r: Option<String>)
    ensures
        match delta.new_value {
            MidnightDeltaValue::UnshieldedUtxo(Some(u)) => r matches Some(line)
                && line@ == "  Indexed Unshielded UTXO: owner="@ + hex_lower(u.owner@) + ", amount="@ + decimal(u.amount as nat),
            MidnightDeltaValue::ZswapCommitment(Some(c)) => r matches Some(line)
                && line@ == "  Indexed Zswap Commitment: hash="@ + hex_lower(c.hash@),
            MidnightDeltaValue::ZswapNullifier(Some(n)) => r matches Some(line)
                && line@ == "  Indexed Zswap Nullifier: hash="@ + hex_lower(n.hash@),
            _ => r is None,
        },
{
    match &delta.new_value {
        MidnightDeltaValue::UnshieldedUtxo(Some(u)) => {
            let line = String::from_str("  Indexed Unshielded UTXO: owner=")
                .concat(hex_encode(&u.owner).as_str())
                .concat(", amount=")
                .concat(u128_decimal(u.amount).as_str());
            Some(line)
        },
        MidnightDeltaValue::ZswapCommitment(Some(c)) => {
            Some(String::from_str("  Indexed Zswap Commitment: hash=").concat(hex_encode(&c.hash).as_str()))
        },
        MidnightDeltaValue::ZswapNullifier(Some(n)) => {
            Some(String::from_str("  Indexed Zswap Nullifier: hash=").concat(hex_encode(&n.hash).as_str()))
        },
        _ => None,
    }
}


/// Where the deltas of fallible offer `f` sit among a transaction's fallible
/// deltas: from the returned position on, in the order the offer gives them.
proof fn lemma_fallible_offer_at(h: [u8; 32], offers: Seq<OfferView>, f: int) -> (base: int)
    requires
        0 <= f < offers.len(),
    ensures
        0 <= base,
        base + offer_deltas(h, (f + 1) as u16, offers[f]).len() <= fallible_deltas(h, offers).len(),
        forall|m: int| 0 <= m < offer_deltas(h, (f + 1) as u16, offers[f]).len()
            ==> fallible_deltas(h, offers)[base + m] == #[trigger] offer_deltas(h, (f + 1) as u16, offers[f])[m],
    decreases offers.len(),
{
    let prefix = fallible_deltas(h, offers.drop_last());
    let od = offer_deltas(h, (f + 1) as u16, offers[f]);
    assert(fallible_deltas(h, offers) == prefix + offer_deltas(h, offers.len() as u16, offers.last()));
    if f == offers.len() - 1 {
        let base = prefix.len() as int;
        assert forall|m: int| 0 <= m < od.len() implies fallible_deltas(h, offers)[base + m] == #[trigger] od[m] by {}
        base
    } else {
        let base = lemma_fallible_offer_at(h, offers.drop_last(), f);
        assert(offers.drop_last()[f] == offers[f]);
        assert forall|m: int| 0 <= m < od.len() implies fallible_deltas(h, offers)[base + m] == #[trigger] od[m] by {
            assert(fallible_deltas(h, offers.drop_last())[base + m] == od[m]);
        }
        base
    }
}

/// Where the deltas of transaction `t` sit among a block's deltas.
proof fn lemma_block_tx_at(h: [u8; 32], txs: Seq<LedgerTransaction>, t: int) -> (base: int)
    requires
        0 <= t < txs.len(),
    ensures
        0 <= base,
        base + tx_index_deltas(h, txs[t]).len() <= block_index_deltas(h, txs).len(),
        forall|m: int| 0 <= m < tx_index_deltas(h, txs[t]).len()
            ==> block_index_deltas(h, txs)[base + m] == #[trigger] tx_index_deltas(h, txs[t])[m],
    decreases txs.len(),
{
    let prefix = block_index_deltas(h, txs.drop_last());
    let td = tx_index_deltas(h, txs[t]);
    if t == txs.len() - 1 {
        let base = prefix.len() as int;
        assert forall|m: int| 0 <= m < td.len() implies block_index_deltas(h, txs)[base + m] == #[trigger] td[m] by {}
        base
    } else {
        let base = lemma_block_tx_at(h, txs.drop_last(), t);
        assert(txs.drop_last()[t] == txs[t]);
        assert forall|m: int| 0 <= m < td.len() implies block_index_deltas(h, txs)[base + m] == #[trigger] td[m] by {
            assert(block_index_deltas(h, txs.drop_last())[base + m] == td[m]);
        }
        base
    }
}

/// The coins of the fallible offer at position `f` of a standard transaction
/// are indexed in segment `f + 1` of the block's coin keys: each output
/// commitment under the key of its position, each input nullifier likewise.
pub proof fn lemma_fallible_offer_keys(h: [u8; 32], txs: Seq<LedgerTransaction>, t: int, f: int)
    requires
        0 <= t < txs.len(),
        txs[t] is Standard,
        0 <= f < (txs[t]->Standard_0)@.fallible.len(),
        f + 1 < 0x1_0000,
    ensures
        forall|k: int| #![trigger (txs[t]->Standard_0)@.fallible[f].outputs[k]]
            0 <= k < (txs[t]->Standard_0)@.fallible[f].outputs.len() ==> exists|j: int|
            0 <= j < block_index_deltas(h, txs).len() && #[trigger] block_index_deltas(h, txs)[j] == (IndexDeltaView {
                key: spec_coin_key(h, (f + 1) as u16, k),
                new_value: MidnightDeltaValue::ZswapCommitment(Some(ZswapCommitment {
                    hash: (txs[t]->Standard_0)@.fallible[f].outputs[k],
                })),
            }),
        forall|k: int| #![trigger (txs[t]->Standard_0)@.fallible[f].inputs[k]]
            0 <= k < (txs[t]->Standard_0)@.fallible[f].inputs.len() ==> exists|j: int|
            0 <= j < block_index_deltas(h, txs).len() && #[trigger] block_index_deltas(h, txs)[j] == (IndexDeltaView {
                key: spec_coin_key(h, (f + 1) as u16, k),
                new_value: MidnightDeltaValue::ZswapNullifier(Some(ZswapNullifier {
                    hash: (txs[t]->Standard_0)@.fallible[f].inputs[k],
                })),
            }),
{
    let sv = (txs[t]->Standard_0)@;
    let offer = sv.fallible[f];
    let od = offer_deltas(h, (f + 1) as u16, offer);
    let g = match sv.guaranteed {
        Some(go) => offer_deltas(h, 0, go),
        None => Seq::empty(),
    };
    let fb = lemma_fallible_offer_at(h, sv.fallible, f);
    let tb = lemma_block_tx_at(h, txs, t);
    let td = tx_index_deltas(h, txs[t]);
    let bd = block_index_deltas(h, txs);
    let pre = intents_deltas(sv.intents) + g;
    assert(td == pre + fallible_deltas(h, sv.fallible));
    assert forall|k: int| #![trigger (txs[t]->Standard_0)@.fallible[f].outputs[k]]
        0 <= k < (txs[t]->Standard_0)@.fallible[f].outputs.len() implies exists|j: int|
        0 <= j < block_index_deltas(h, txs).len() && #[trigger] block_index_deltas(h, txs)[j] == (IndexDeltaView {
            key: spec_coin_key(h, (f + 1) as u16, k),
            new_value: MidnightDeltaValue::ZswapCommitment(Some(ZswapCommitment {
                hash: (txs[t]->Standard_0)@.fallible[f].outputs[k],
            })),
        }) by {
        let m = pre.len() + fb + k;
        let want = IndexDeltaView {
            key: spec_coin_key(h, (f + 1) as u16, k),
            new_value: MidnightDeltaValue::ZswapCommitment(Some(ZswapCommitment { hash: offer.outputs[k] })),
        };
        assert(od[k] == want);
        assert(od[k] == fallible_deltas(h, sv.fallible)[fb + k]);
        assert(td[m] == od[k]);
        assert(block_index_deltas(h, txs)[tb + m] == want);
    }
    assert forall|k: int| #![trigger (txs[t]->Standard_0)@.fallible[f].inputs[k]]
        0 <= k < (txs[t]->Standard_0)@.fallible[f].inputs.len() implies exists|j: int|
        0 <= j < block_index_deltas(h, txs).len() && #[trigger] block_index_deltas(h, txs)[j] == (IndexDeltaView {
            key: spec_coin_key(h, (f + 1) as u16, k),
            new_value: MidnightDeltaValue::ZswapNullifier(Some(ZswapNullifier {
                hash: (txs[t]->Standard_0)@.fallible[f].inputs[k],
            })),
        }) by {
        let i = offer.outputs.len() + k;
        let m = pre.len() + fb + i;
        let want = IndexDeltaView {
            key: spec_coin_key(h, (f + 1) as u16, k),
            new_value: MidnightDeltaValue::ZswapNullifier(Some(ZswapNullifier { hash: offer.inputs[k] })),
        };
        assert(od[i] == want);
        assert(od[i] == fallible_deltas(h, sv.fallible)[fb + i]);
        assert(td[m] == od[i]);
        assert(block_index_deltas(h, txs)[tb + m] == want);
    }
}


/// Coins of fallible offers at different positions never share a key, and no
/// fallible offer's coin shares a key with a coin of the guaranteed offer
/// (segment 0).
pub proof fn lemma_offer_segments_distinct(h: [u8; 32], f: int, f2: int, k: int, k2: int)
    requires
        0 <= f && f + 1 < 0x1_0000,
        0 <= f2 && f2 + 1 < 0x1_0000,
        f != f2,
        0 <= k < 0x1_0000,
        0 <= k2 < 0x1_0000,
    ensures
        spec_coin_key(h, (f + 1) as u16, k) != spec_coin_key(h, (f2 + 1) as u16, k2),
        spec_coin_key(h, (f + 1) as u16, k) != spec_coin_key(h, 0, k2),
{
    assert((f + 1) as u16 != (f2 + 1) as u16);
    assert((f + 1) as u16 != 0u16);
    lemma_coin_keys_distinct(h, (f + 1) as u16, k, (f2 + 1) as u16, k2);
    lemma_coin_keys_distinct(h, (f + 1) as u16, k, 0, k2);
}

} // verus!

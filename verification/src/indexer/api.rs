//! The indexer's HTTP API: the JSON records it answers with, and how they
//! are drawn from the state and the archive.

use vstd::prelude::*;
use crate::indexer::{IndexNamespace, IndexedEntity, UnshieldedUtxo};
use crate::store::{enumerates, keys_ascending, ArchiveStore, EntityStore};
use crate::text::{decimal, hex_encode, hex_lower, u128_decimal};

verus! {

/// An unshielded UTxO as the API shows it: hashes in hex, the amount in decimal.
#[derive(Debug)]
pub struct UtxoResponse {
    pub intent_hash: String,
    pub output_index: u32,
    pub amount: String,
    pub owner: String,
}

/// A coin commitment as the API shows it.
#[derive(Debug)]
pub struct CommitmentResponse {
    pub hash: String,
}

/// A nullifier as the API shows it.
#[derive(Debug)]
pub struct NullifierResponse {
    pub hash: String,
}

/// An archived block as the API shows it: its slot and body size.
#[derive(Clone, Copy, Debug)]
pub struct BlockResponse {
    pub slot: u64,
    pub size: usize,
}

/// The value of a UTxO response.
pub struct UtxoResponseView {
    pub intent_hash: Seq<char>,
    pub output_index: u32,
    pub amount: Seq<char>,
    pub owner: Seq<char>,
}

impl View for UtxoResponse {
    type V = UtxoResponseView;

    open spec fn view(&self) -> UtxoResponseView {
        UtxoResponseView {
            intent_hash: self.intent_hash@,
            output_index: self.output_index,
            amount: self.amount@,
            owner: self.owner@,
        }
    }
}

/// How the API shows an unshielded UTxO.
pub open spec fn utxo_view(u: UnshieldedUtxo) -> UtxoResponseView {
    UtxoResponseView {
        intent_hash: hex_lower(u.intent_hash@),
        output_index: u.output_index,
        amount: decimal(u.amount as nat),
        owner: hex_lower(u.owner@),
    }
}

/// The API record of an unshielded UTxO.
pub fn utxo_response(u: &UnshieldedUtxo) -> (r: UtxoResponse)
    ensures
        r@ == utxo_view(*u),
{
    UtxoResponse {
        intent_hash: hex_encode(&u.intent_hash),
        output_index: u.output_index,
        amount: u128_decimal(u.amount),
        owner: hex_encode(&u.owner),
    }
}

/// The records of the UTxOs among listed entities, in order; entities of
/// another kind are passed over.
pub open spec fn utxo_records(es: Seq<(Seq<u8>, IndexedEntity)>) -> Seq<UtxoResponseView>
    decreases es.len(),
{
    if es.len() == 0 {
        Seq::empty()
    } else {
        let rest = utxo_records(es.drop_last());
        match es.last().1 {
            IndexedEntity::UnshieldedUtxo(u) => rest.push(utxo_view(u)),
            _ => rest,
        }
    }
}

/// The hashes among listed entities that are commitments (`commitments`
/// true) or nullifiers, in order.
pub open spec fn coin_records(es: Seq<(Seq<u8>, IndexedEntity)>, commitments: bool) -> Seq<Seq<char>>
    decreases es.len(),
{
    if es.len() == 0 {
        Seq::empty()
    } else {
        let rest = coin_records(es.drop_last(), commitments);
        match es.last().1 {
            IndexedEntity::ZswapCommitment(c) => if commitments { rest.push(hex_lower(c.hash@)) } else { rest },
            IndexedEntity::ZswapNullifier(n) => if commitments { rest } else { rest.push(hex_lower(n.hash@)) },
            _ => rest,
        }
    }
}

/// Every unshielded UTxO in the state, in the order of their keys.
pub fn list_utxos(state: &EntityStore<IndexedEntity>) -> (r: Vec<UtxoResponse>)
    ensures
        exists|es: Seq<(Seq<u8>, IndexedEntity)>| enumerates(state.entities(), IndexNamespace::UnshieldedUtxo.tag(), es) && keys_ascending(es)
            && r@.map_values(|x: UtxoResponse| x@) == utxo_records(es),
{
    let tag = IndexNamespace::UnshieldedUtxo.store_tag();
    let entries = state.entries_in(tag);
    let ghost es = entries@.map_values(|e: ([u8; 32], IndexedEntity)| (e.0@, e.1@));
    let mut r: Vec<UtxoResponse> = Vec::new();
    let mut i: usize = 0;
    while i < entries.len()
        invariant
            i <= entries.len(),
            es == entries@.map_values(|e: ([u8; 32], IndexedEntity)| (e.0@, e.1@)),
            r@.map_values(|x: UtxoResponse| x@) == utxo_records(es.take(i as int)),
        decreases entries.len() - i,
    {
        let ghost before = r@;
        match &entries[i].1 {
            IndexedEntity::UnshieldedUtxo(u) => {
                r.push(utxo_response(u));
                assert(r@.map_values(|x: UtxoResponse| x@) =~= before.map_values(|x: UtxoResponse| x@).push(r@[r@.len() - 1]@));
            },
            _ => {},
        }
        assert(es.take(i + 1).drop_last() =~= es.take(i as int));
        i = i + 1;
    }
    assert(es.take(i as int) =~= es);
    r
}

/// The hash records of the coins of one kind stored under `ns`.
fn list_coins(state: &EntityStore<IndexedEntity>, ns: IndexNamespace, commitments: bool) -> (r: Vec<String>)
    ensures
        exists|es: Seq<(Seq<u8>, IndexedEntity)>| enumerates(state.entities(), ns.tag(), es) && keys_ascending(es)
            && r@.map_values(|x: String| x@) == coin_records(es, commitments),
{
    let tag = ns.store_tag();
    let entries = state.entries_in(tag);
    let ghost es = entries@.map_values(|e: ([u8; 32], IndexedEntity)| (e.0@, e.1@));
    let mut r: Vec<String> = Vec::new();
    let mut i: usize = 0;
    while i < entries.len()
        invariant
            i <= entries.len(),
            es == entries@.map_values(|e: ([u8; 32], IndexedEntity)| (e.0@, e.1@)),
            r@.map_values(|x: String| x@) == coin_records(es.take(i as int), commitments),
        decreases entries.len() - i,
    {
        let ghost before = r@;
        match &entries[i].1 {
            IndexedEntity::ZswapCommitment(c) => {
                if commitments {
                    r.push(hex_encode(&c.hash));
                    assert(r@.map_values(|x: String| x@) =~= before.map_values(|x: String| x@).push(r@[r@.len() - 1]@));
                }
            },
            IndexedEntity::ZswapNullifier(n) => {
                if !commitments {
                    r.push(hex_encode(&n.hash));
                    assert(r@.map_values(|x: String| x@) =~= before.map_values(|x: String| x@).push(r@[r@.len() - 1]@));
                }
            },
            _ => {},
        }
        assert(es.take(i + 1).drop_last() =~= es.take(i as int));
        i = i + 1;
    }
    assert(es.take(i as int) =~= es);
    r
}

/// Every coin commitment in the state, as hex, in the order of their keys.
pub fn list_commitments(state: &EntityStore<IndexedEntity>) -> (r: Vec<CommitmentResponse>)
    ensures
        exists|es: Seq<(Seq<u8>, IndexedEntity)>| enumerates(state.entities(), IndexNamespace::ZswapCommitment.tag(), es) && keys_ascending(es)
            && r@.map_values(|x: CommitmentResponse| x.hash@) == coin_records(es, true),
{
    let hashes = list_coins(state, IndexNamespace::ZswapCommitment, true);
    let mut r: Vec<CommitmentResponse> = Vec::new();
    let mut rest = hashes;
    let ghost all = rest@.map_values(|x: String| x@);
    while 0 < rest.len()
        invariant
            r@.map_values(|x: CommitmentResponse| x.hash@) + rest@.map_values(|x: String| x@) == all,
        decreases rest.len(),
    {
        let h = rest.remove(0);
        let ghost before = r@;
        r.push(CommitmentResponse { hash: h });
        assert(r@.map_values(|x: CommitmentResponse| x.hash@) =~= before.map_values(|x: CommitmentResponse| x.hash@).push(h@));
    }
    assert(rest@.map_values(|x: String| x@) =~= Seq::<Seq<char>>::empty());
    assert(r@.map_values(|x: CommitmentResponse| x.hash@) =~= all);
    r
}

/// Every nullifier in the state, as hex, in the order of their keys.
pub fn list_nullifiers(state: &EntityStore<IndexedEntity>) -> (r: Vec<NullifierResponse>)
    ensures
        exists|es: Seq<(Seq<u8>, IndexedEntity)>| enumerates(state.entities(), IndexNamespace::ZswapNullifier.tag(), es) && keys_ascending(es)
            && r@.map_values(|x: NullifierResponse| x.hash@) == coin_records(es, false),
{
    let hashes = list_coins(state, IndexNamespace::ZswapNullifier, false);
    let mut r: Vec<NullifierResponse> = Vec::new();
    let mut rest = hashes;
    let ghost all = rest@.map_values(|x: String| x@);
    while 0 < rest.len()
        invariant
            r@.map_values(|x: NullifierResponse| x.hash@) + rest@.map_values(|x: String| x@) == all,
        decreases rest.len(),
    {
        let h = rest.remove(0);
        let ghost before = r@;
        r.push(NullifierResponse { hash: h });
        assert(r@.map_values(|x: NullifierResponse| x.hash@) =~= before.map_values(|x: NullifierResponse| x.hash@).push(h@));
    }
    assert(rest@.map_values(|x: String| x@) =~= Seq::<Seq<char>>::empty());
    assert(r@.map_values(|x: NullifierResponse| x.hash@) =~= all);
    r
}

/// Whether block records are in descending slot order.
pub open spec fn slots_descending(s: Seq<BlockResponse>) -> bool {
    forall|i: int, j: int| 0 <= i < j < s.len() ==> (#[trigger] s[i]).slot >= (#[trigger] s[j]).slot
}

/// Sorts block records by slot, latest first.
pub fn sort_by_slot_desc(v: Vec<BlockResponse>) -> (r: Vec<BlockResponse>)
    ensures
        r@.to_multiset() == v@.to_multiset(),
        slots_descending(r@),
{
    broadcast use vstd::seq_lib::group_to_multiset_ensures;
    let mut rest = v;
    let mut r: Vec<BlockResponse> = Vec::new();
    let ghost all = rest@.to_multiset();
    while 0 < rest.len()
        invariant
            r@.to_multiset().add(rest@.to_multiset()) == all,
            slots_descending(r@),
            forall|a: int, b: int| 0 <= a < r@.len() && 0 <= b < rest@.len() ==> (#[trigger] r@[a]).slot >= (#[trigger] rest@[b]).slot,
        decreases rest.len(),
    {
        // the latest block among those left
        let mut best: usize = 0;
        let mut k: usize = 1;
        while k < rest.len()
            invariant
                best < rest.len(),
                1 <= k <= rest.len(),
                forall|b: int| 0 <= b < k ==> (#[trigger] rest@[b]).slot <= rest@[best as int].slot,
            decreases rest.len() - k,
        {
            if rest[k].slot > rest[best].slot {
                best = k;
            }
            k = k + 1;
        }
        let ghost old_rest = rest@;
        let ghost old_r = r@;
        let x = rest.remove(best);
        r.push(x);
        proof {
            vstd::seq_lib::to_multiset_remove(old_rest, best as int);
            vstd::seq_lib::to_multiset_build(old_r, x);
            assert(rest@ == old_rest.remove(best as int));
            assert(r@ == old_r.push(x));
            vstd::seq_lib::to_multiset_contains(old_rest, x);
            assert(old_rest.contains(x));
            assert(old_rest.to_multiset().count(x) > 0);
            assert(r@.to_multiset().add(rest@.to_multiset()) =~= all);
            assert forall|a: int, b: int| 0 <= a < r@.len() && 0 <= b < rest@.len() implies (#[trigger] r@[a]).slot >= (#[trigger] rest@[b]).slot by {
                if b < best { assert(rest@[b] == old_rest[b]); } else { assert(rest@[b] == old_rest[b + 1]); }
                if a < old_r.len() { assert(r@[a] == old_r[a]); }
            }
            assert forall|a: int, b: int| 0 <= a < b < r@.len() implies (#[trigger] r@[a]).slot >= (#[trigger] r@[b]).slot by {
                if b < old_r.len() { assert(r@[a] == old_r[a] && r@[b] == old_r[b]); }
                else { assert(r@[a] == old_r[a]); assert(old_r[a].slot >= old_rest[best as int].slot); }
            }
        }
    }
    proof {
        assert(rest@.to_multiset() =~= vstd::multiset::Multiset::empty());
        assert(r@.to_multiset() =~= all);
    }
    r
}

/// The archived blocks as the API shows them: slot and body size, in slot order.
pub open spec fn block_records(archive: ArchiveStore) -> Seq<BlockResponse> {
    archive.contents().map_values(|b: (u64, crate::chain_types::ChainPoint, Seq<u8>)| BlockResponse { slot: b.0, size: b.2.len() as usize })
}

/// The latest 100 archived blocks, latest first.
pub fn list_blocks(archive: &ArchiveStore) -> (r: Vec<BlockResponse>)
    ensures
        exists|sorted: Seq<BlockResponse>| sorted.to_multiset() == block_records(*archive).to_multiset()
            && slots_descending(sorted)
            && r@ == sorted.take(if sorted.len() < 100 { sorted.len() as int } else { 100 }),
{
    let sizes = archive.slot_sizes();
    let mut blocks: Vec<BlockResponse> = Vec::new();
    let mut i: usize = 0;
    while i < sizes.len()
        invariant
            i <= sizes.len(),
            sizes@ == archive.contents().map_values(|b: (u64, crate::chain_types::ChainPoint, Seq<u8>)| (b.0, b.2.len() as usize)),
            blocks@ == block_records(*archive).take(i as int),
        decreases sizes.len() - i,
    {
        blocks.push(BlockResponse { slot: sizes[i].0, size: sizes[i].1 });
        assert(blocks@ =~= block_records(*archive).take(i + 1));
        i = i + 1;
    }
    assert(block_records(*archive).take(i as int) =~= block_records(*archive));
    let mut sorted = sort_by_slot_desc(blocks);
    let ghost full = sorted@;
    sorted.truncate(100);
    assert(sorted@ == full.take(if full.len() < 100 { full.len() as int } else { 100 }));
    sorted
}

} // verus!

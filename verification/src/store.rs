//! An entity store keyed by namespace and 32-byte entity key, with a chain
//! cursor: the state that block processing reads and writes.

use vstd::prelude::*;
use crate::chain_types::ChainPoint;

verus! {

/// Compares two 32-byte keys.
pub fn key_eq(a: &[u8; 32], b: &[u8; 32]) -> (r: bool)
    ensures
        r == (a@ == b@),
{
    let mut i: usize = 0;
    while i < 32
        invariant
            i <= 32,
            a@.len() == 32,
            b@.len() == 32,
            forall|j: int| 0 <= j < i ==> a@[j] == b@[j],
        decreases 32 - i,
    {
        if a[i] != b[i] {
            return false;
        }
        i = i + 1;
    }
    assert(a@ =~= b@);
    true
}

/// One stored entity.
pub struct StoreEntry<V> {
    pub ns: u8,
    pub key: [u8; 32],
    pub value: V,
}

/// Entities by (namespace tag, key), plus the point up to which blocks were applied.
pub struct EntityStore<V: View> {
    entries: Vec<StoreEntry<V>>,
    cursor: Option<ChainPoint>,
}

/// The namespace tag and key under which an entry is stored.
pub open spec fn entry_key<V>(e: StoreEntry<V>) -> (u8, Seq<u8>) {
    (e.ns, e.key@)
}

impl<V: View> EntityStore<V> {
    spec fn key_at(self, i: int) -> (u8, Seq<u8>) {
        entry_key(self.entries[i])
    }

    #[verifier::type_invariant]
    spec fn distinct_keys(self) -> bool {
        forall|i: int, j: int|
            0 <= i < j < self.entries.len() ==> #[trigger] self.key_at(i) != #[trigger] self.key_at(j)
    }

    spec fn holds(self, k: (u8, Seq<u8>)) -> bool {
        exists|i: int| 0 <= i < self.entries.len() && #[trigger] self.key_at(i) == k
    }

    spec fn index_of(self, k: (u8, Seq<u8>)) -> int {
        choose|i: int| 0 <= i < self.entries.len() && #[trigger] self.key_at(i) == k
    }

    /// The entities held, by namespace tag and key.
    pub closed spec fn entities(self) -> Map<(u8, Seq<u8>), V::V> {
        Map::new(|k: (u8, Seq<u8>)| self.holds(k), |k: (u8, Seq<u8>)| self.entries[self.index_of(k)].value@)
    }

    /// The cursor: the last point whose effects the store holds.
    pub closed spec fn cursor_point(self) -> Option<ChainPoint> {
        self.cursor
    }

    /// An empty store with no cursor.
    pub fn new() -> (s: Self)
        ensures
            s.entities() == Map::<(u8, Seq<u8>), V::V>::empty(),
            s.cursor_point() is None,
    {
        let s = EntityStore { entries: Vec::new(), cursor: None };
        assert(s.entities() =~= Map::<(u8, Seq<u8>), V::V>::empty());
        s
    }

    fn find(&self, ns: u8, key: &[u8; 32]) -> (r: Option<usize>)
        ensures
            match r {
                Some(i) => i < self.entries.len() && self.key_at(i as int) == (ns, key@),
                None => !self.holds((ns, key@)),
            },
    {
        let mut i: usize = 0;
        while i < self.entries.len()
            invariant
                i <= self.entries.len(),
                forall|j: int| 0 <= j < i ==> #[trigger] self.key_at(j) != (ns, key@),
            decreases self.entries.len() - i,
        {
            if self.entries[i].ns == ns && key_eq(&self.entries[i].key, key) {
                return Some(i);
            }
            i = i + 1;
        }
        None
    }

    proof fn lemma_entry_view(self, i: int)
        requires
            0 <= i < self.entries.len(),
            self.distinct_keys(),
        ensures
            self.entities().dom().contains(self.key_at(i)),
            self.entities()[self.key_at(i)] == self.entries[i].value@,
    {
        let k = self.key_at(i);
        assert(self.holds(k));
        let j = self.index_of(k);
        if j < i {
            assert(self.key_at(j) != self.key_at(i));
        } else if i < j {
            assert(self.key_at(i) != self.key_at(j));
        }
    }

    /// Two stores whose entries agree outside key `k0` (by the index maps `f`
    /// and `g`) hold the same entities outside `k0`.
    proof fn lemma_agree_outside(
        s1: Self,
        s2: Self,
        k0: (u8, Seq<u8>),
        k: (u8, Seq<u8>),
        f: spec_fn(int) -> int,
        g: spec_fn(int) -> int,
    )
        requires
            s1.distinct_keys(),
            s2.distinct_keys(),
            k != k0,
            forall|j: int| 0 <= j < s1.entries.len() && #[trigger] s1.key_at(j) != k0
                ==> 0 <= f(j) < s2.entries.len() && s2.entries[f(j)] == s1.entries[j],
            forall|j: int| 0 <= j < s2.entries.len() && #[trigger] s2.key_at(j) != k0
                ==> 0 <= g(j) < s1.entries.len() && s1.entries[g(j)] == s2.entries[j],
        ensures
            s1.entities().dom().contains(k) == s2.entities().dom().contains(k),
            s1.entities().dom().contains(k) ==> s1.entities()[k] == s2.entities()[k],
    {
        if s1.holds(k) {
            let j = s1.index_of(k);
            s1.lemma_entry_view(j);
            assert(s2.key_at(f(j)) == k);
            s2.lemma_entry_view(f(j));
        }
        if s2.holds(k) {
            let j = s2.index_of(k);
            assert(s1.key_at(g(j)) == k);
        }
    }

    /// Reads the entity stored under `ns` and `key`.
    pub fn read(&self, ns: u8, key: &[u8; 32]) -> (r: Option<&V>)
        ensures
            match r {
                Some(v) => self.entities().dom().contains((ns, key@))
                    && self.entities()[(ns, key@)] == v@,
                None => !self.entities().dom().contains((ns, key@)),
            },
    {
        match self.find(ns, key) {
            Some(i) => {
                proof {
                    use_type_invariant(self);
                    self.lemma_entry_view(i as int);
                }
                Some(&self.entries[i].value)
            },
            None => None,
        }
    }

    /// Stores `value` under `ns` and `key`, replacing what was there.
    pub fn write(&mut self, ns: u8, key: &[u8; 32], value: V)
        ensures
            final(self).entities() == old(self).entities().insert((ns, key@), value@),
            final(self).cursor_point() == old(self).cursor_point(),
    {
        proof { use_type_invariant(&*self); }
        let ghost before = *self;
        let ghost k0 = (ns, key@);
        let entry = StoreEntry { ns, key: *key, value };
        let found = self.find(ns, key);
        let mut entries: Vec<StoreEntry<V>> = Vec::new();
        std::mem::swap(&mut entries, &mut self.entries);
        let pos: usize;
        match found {
            Some(i) => {
                entries.set(i, entry);
                pos = i;
            },
            None => {
                pos = entries.len();
                entries.push(entry);
            },
        }
        let ghost mid = EntityStore { entries, cursor: before.cursor };
        proof {
            assert(forall|j: int| 0 <= j < before.entries.len() && j != pos ==> #[trigger] mid.entries[j] == before.entries[j]);
            assert forall|a: int, b: int| 0 <= a < b < mid.entries.len() implies
                #[trigger] mid.key_at(a) != #[trigger] mid.key_at(b) by {
                if found is Some {
                    assert(mid.key_at(a) == before.key_at(a));
                    assert(mid.key_at(b) == before.key_at(b));
                    assert(before.key_at(a) != before.key_at(b));
                } else if a != pos as int && b != pos as int {
                    assert(before.key_at(a) != before.key_at(b));
                } else if a == pos as int {
                    assert(mid.key_at(a) == k0);
                    if found is None { assert(before.key_at(b) != k0); }
                } else {
                    assert(mid.key_at(b) == k0);
                    if found is None { assert(before.key_at(a) != k0); }
                }
            }
        }
        self.entries = entries;
        proof {
            let after = *self;
            assert(after == mid);
            after.lemma_entry_view(pos as int);
            assert forall|k: (u8, Seq<u8>)| k != k0 implies
                (#[trigger] after.entities().dom().contains(k)) == before.entities().dom().contains(k)
                && (before.entities().dom().contains(k) ==> after.entities()[k] == before.entities()[k]) by {
                Self::lemma_agree_outside(before, after, k0, k, |j: int| j, |j: int| j);
            }
            assert(after.entities() =~= before.entities().insert(k0, value@));
        }
    }
    /// Removes whatever is stored under `ns` and `key`.
    pub fn delete(&mut self, ns: u8, key: &[u8; 32])
        ensures
            final(self).entities() == old(self).entities().remove((ns, key@)),
            final(self).cursor_point() == old(self).cursor_point(),
    {
        proof { use_type_invariant(&*self); }
        let ghost before = *self;
        let ghost k0 = (ns, key@);
        match self.find(ns, key) {
            None => {
                assert(self.entities() =~= before.entities().remove(k0));
            },
            Some(pos) => {
                let mut entries: Vec<StoreEntry<V>> = Vec::new();
                std::mem::swap(&mut entries, &mut self.entries);
                let ghost last = entries.len() - 1;
                let _removed = entries.swap_remove(pos);
                let ghost mid = EntityStore { entries, cursor: before.cursor };
                let ghost f = |j: int| if j == last { pos as int } else { j };
                let ghost g = |j: int| if j == pos as int { last } else { j };
                proof {
                    assert forall|j: int| 0 <= j < mid.entries.len() implies
                        #[trigger] mid.entries[j] == before.entries[g(j)] by {}
                    assert forall|a: int, b: int| 0 <= a < b < mid.entries.len() implies
                        #[trigger] mid.key_at(a) != #[trigger] mid.key_at(b) by {
                        assert(mid.key_at(a) == before.key_at(g(a)));
                        assert(mid.key_at(b) == before.key_at(g(b)));
                        if g(a) < g(b) {
                            assert(before.key_at(g(a)) != before.key_at(g(b)));
                        } else {
                            assert(before.key_at(g(b)) != before.key_at(g(a)));
                        }
                    }
                    assert forall|j: int| 0 <= j < mid.entries.len() implies
                        #[trigger] mid.key_at(j) != k0 by {
                        assert(mid.key_at(j) == before.key_at(g(j)));
                        if g(j) < pos { assert(before.key_at(g(j)) != before.key_at(pos as int)); }
                        else { assert(before.key_at(pos as int) != before.key_at(g(j))); }
                    }
                }
                self.entries = entries;
                proof {
                    let after = *self;
                    assert(after == mid);
                    assert(!after.holds(k0));
                    assert forall|k: (u8, Seq<u8>)| k != k0 implies
                        (#[trigger] after.entities().dom().contains(k)) == before.entities().dom().contains(k)
                        && (before.entities().dom().contains(k) ==> after.entities()[k] == before.entities()[k]) by {
                        assert forall|j: int| 0 <= j < before.entries.len() && #[trigger] before.key_at(j) != k0
                            implies 0 <= f(j) < after.entries.len() && after.entries[f(j)] == before.entries[j] by {
                            assert(j != pos as int);
                        }
                        Self::lemma_agree_outside(before, after, k0, k, f, g);
                    }
                    assert(after.entities() =~= before.entities().remove(k0));
                }
            },
        }
    }

    /// Records the point up to which the store holds the chain's effects.
    pub fn set_cursor(&mut self, point: ChainPoint)
        ensures
            final(self).entities() == old(self).entities(),
            final(self).cursor_point() == Some(point),
    {
        proof { use_type_invariant(&*self); }
        let ghost before = *self;
        let ghost after = EntityStore { entries: before.entries, cursor: Some(point) };
        proof {
            assert forall|a: int, b: int| 0 <= a < b < after.entries.len() implies
                #[trigger] after.key_at(a) != #[trigger] after.key_at(b) by {
                assert(before.key_at(a) != before.key_at(b));
            }
            assert forall|k: (u8, Seq<u8>)| #[trigger] after.holds(k) == before.holds(k) by {
                if after.holds(k) { assert(before.key_at(after.index_of(k)) == k); }
                if before.holds(k) { assert(after.key_at(before.index_of(k)) == k); }
            }
            assert forall|k: (u8, Seq<u8>)| #[trigger] before.holds(k) implies
                after.entities()[k] == before.entities()[k] by {
                let i = before.index_of(k);
                before.lemma_entry_view(i);
                after.lemma_entry_view(i);
            }
            assert(after.entities() =~= before.entities());
        }
        self.cursor = Some(point);
    }

    /// The point up to which the store holds the chain's effects.
    pub fn read_cursor(&self) -> (r: Option<ChainPoint>)
        ensures
            r == self.cursor_point(),
    {
        self.cursor
    }
}

/// One archived block.
pub struct ArchivedBlock {
    pub point: ChainPoint,
    pub slot: u64,
    pub body: Vec<u8>,
}

/// Raw blocks by slot, kept in slot order.
pub struct ArchiveStore {
    blocks: Vec<ArchivedBlock>,
}

impl ArchiveStore {
    #[verifier::type_invariant]
    spec fn ordered(self) -> bool {
        forall|i: int, j: int| 0 <= i < j < self.blocks.len() ==> #[trigger] self.blocks[i].slot < #[trigger] self.blocks[j].slot
    }

    /// The archived blocks in slot order: slot, point and body.
    pub closed spec fn contents(self) -> Seq<(u64, ChainPoint, Seq<u8>)> {
        self.blocks@.map_values(|b: ArchivedBlock| (b.slot, b.point, b.body@))
    }

    /// An empty archive.
    pub fn new() -> (a: Self)
        ensures
            a.contents().len() == 0,
    {
        ArchiveStore { blocks: Vec::new() }
    }

    /// Archives `body` as the block at `slot` and `point`, replacing a block
    /// archived at the same slot; the archive stays in slot order.
    pub fn apply(&mut self, slot: u64, point: ChainPoint, body: Vec<u8>)
        ensures
            slots_ascending(final(self).contents()),
            final(self).contents().contains((slot, point, body@)),
            forall|e: (u64, ChainPoint, Seq<u8>)| #[trigger] final(self).contents().contains(e) && e.0 != slot
                ==> old(self).contents().contains(e),
            forall|e: (u64, ChainPoint, Seq<u8>)| #[trigger] old(self).contents().contains(e) && e.0 != slot
                ==> final(self).contents().contains(e),
            forall|e: (u64, ChainPoint, Seq<u8>)| #[trigger] final(self).contents().contains(e) && e.0 == slot
                ==> e == (slot, point, body@),
    {
        proof { use_type_invariant(&*self); }
        let ghost before = self.contents();
        let mut blocks: Vec<ArchivedBlock> = Vec::new();
        std::mem::swap(&mut blocks, &mut self.blocks);
        let ghost old_blocks = blocks@;
        // position of the first block at or after `slot`
        let mut i: usize = 0;
        while i < blocks.len() && blocks[i].slot < slot
            invariant
                i <= blocks.len(),
                blocks@ == old_blocks,
                forall|j: int| 0 <= j < i ==> #[trigger] blocks[j].slot < slot,
            decreases blocks.len() - i,
        {
            i = i + 1;
        }
        let entry = ArchivedBlock { point, slot, body };
        if i < blocks.len() && blocks[i].slot == slot {
            blocks.set(i, entry);
        } else {
            blocks.insert(i, entry);
        }
        proof {
            assert forall|a: int, b: int| 0 <= a < b < blocks.len() implies
                #[trigger] blocks[a].slot < #[trigger] blocks[b].slot by {
                if blocks.len() == old_blocks.len() {
                    if a != i && b != i {
                        assert(old_blocks[a].slot < old_blocks[b].slot);
                    } else if a == i {
                        assert(old_blocks[a].slot < old_blocks[b].slot);
                    } else {
                        assert(a < i);
                    }
                } else {
                    if a < i && b < i {
                        assert(old_blocks[a].slot < old_blocks[b].slot);
                    } else if a < i && b == i {
                    } else if a < i {
                        assert(blocks[b] == old_blocks[b - 1]);
                        if i < old_blocks.len() {
                            assert(old_blocks[i as int].slot >= slot);
                            if b - 1 > i { assert(old_blocks[i as int].slot < old_blocks[b - 1].slot); }
                        }
                    } else if a == i {
                        assert(blocks[b] == old_blocks[b - 1]);
                        assert(old_blocks[i as int].slot > slot);
                        if b - 1 > i { assert(old_blocks[i as int].slot < old_blocks[b - 1].slot); }
                    } else {
                        assert(blocks[a] == old_blocks[a - 1]);
                        assert(blocks[b] == old_blocks[b - 1]);
                        assert(old_blocks[a - 1].slot < old_blocks[b - 1].slot);
                    }
                }
            }
        }
        let ghost replaced = blocks.len() == old_blocks.len();
        self.blocks = blocks;
        proof {
            let after = self.contents();
            let x = (slot, point, body@);
            if replaced {
                assert(after =~= before.update(i as int, x));
                assert(before[i as int].0 == slot);
            } else {
                assert(after =~= before.insert(i as int, x));
            }
            assert(after[i as int] == x);
            assert forall|e: (u64, ChainPoint, Seq<u8>)| #[trigger] after.contains(e) && e.0 != slot
                implies before.contains(e) by {
                let k = choose|k: int| 0 <= k < after.len() && after[k] == e;
                if replaced {
                    assert(before[k] == e);
                } else if k < i {
                    assert(before[k] == e);
                } else {
                    assert(before[k - 1] == e);
                }
            }
            assert forall|e: (u64, ChainPoint, Seq<u8>)| #[trigger] before.contains(e) && e.0 != slot
                implies after.contains(e) by {
                let k = choose|k: int| 0 <= k < before.len() && before[k] == e;
                if replaced {
                    assert(after[k] == e);
                } else if k < i {
                    assert(after[k] == e);
                } else {
                    assert(after[k + 1] == e);
                }
            }
            assert forall|e: (u64, ChainPoint, Seq<u8>)| #[trigger] after.contains(e) && e.0 == slot
                implies e == x by {
                let k = choose|k: int| 0 <= k < after.len() && after[k] == e;
                if k < i {
                    assert(after[k].0 < after[i as int].0);
                } else if k > i {
                    assert(after[i as int].0 < after[k].0);
                }
            }
        }
    }
}

/// Whether the slots of archived blocks strictly increase.
pub open spec fn slots_ascending(c: Seq<(u64, ChainPoint, Seq<u8>)>) -> bool {
    forall|i: int, j: int| 0 <= i < j < c.len() ==> #[trigger] c[i].0 < #[trigger] c[j].0
}

impl ArchiveStore {
    /// The slot and body size of every archived block, in slot order.
    pub fn slot_sizes(&self) -> (r: Vec<(u64, usize)>)
        ensures
            r@ == self.contents().map_values(|b: (u64, ChainPoint, Seq<u8>)| (b.0, b.2.len() as usize)),
    {
        let ghost target = self.contents().map_values(|b: (u64, ChainPoint, Seq<u8>)| (b.0, b.2.len() as usize));
        let mut r: Vec<(u64, usize)> = Vec::new();
        let mut i: usize = 0;
        while i < self.blocks.len()
            invariant
                i <= self.blocks.len(),
                target == self.contents().map_values(|b: (u64, ChainPoint, Seq<u8>)| (b.0, b.2.len() as usize)),
                target.len() == self.blocks@.len(),
                r@ == target.take(i as int),
            decreases self.blocks.len() - i,
        {
            r.push((self.blocks[i].slot, self.blocks[i].body.len()));
            assert(r@ =~= target.take(i + 1));
            i = i + 1;
        }
        assert(target.take(i as int) =~= target);
        r
    }
}

/// Whether `es` lists, each key once, exactly the entities that `m` holds
/// under namespace tag `ns`.
pub open spec fn enumerates<W>(m: Map<(u8, Seq<u8>), W>, ns: u8, es: Seq<(Seq<u8>, W)>) -> bool {
    &&& forall|i: int| 0 <= i < es.len() ==> m.dom().contains((ns, #[trigger] es[i].0))
        && m[(ns, es[i].0)] == es[i].1
    &&& forall|i: int, j: int| 0 <= i < j < es.len() ==> #[trigger] es[i].0 != #[trigger] es[j].0
    &&& forall|k: Seq<u8>| #[trigger] m.dom().contains((ns, k)) ==> exists|i: int| 0 <= i < es.len() && es[i].0 == k
}

impl<V: View + Copy> EntityStore<V> {
    fn collect_in(&self, ns: u8) -> (r: Vec<([u8; 32], V)>)
        ensures
            enumerates(self.entities(), ns, r@.map_values(|e: ([u8; 32], V)| (e.0@, e.1@))),
    {
        proof { use_type_invariant(self); }
        let ghost m = self.entities();
        let mut r: Vec<([u8; 32], V)> = Vec::new();
        let ghost mut src: Seq<int> = Seq::empty();
        let mut i: usize = 0;
        while i < self.entries.len()
            invariant
                i <= self.entries.len(),
                m == self.entities(),
                self.distinct_keys(),
                src.len() == r@.len(),
                forall|a: int| #![trigger src[a]] 0 <= a < src.len() ==> 0 <= src[a] < i
                    && self.entries[src[a]].ns == ns && r@[a].0 == self.entries[src[a]].key
                    && r@[a].1 == self.entries[src[a]].value,
                forall|a: int, b: int| 0 <= a < b < src.len() ==> #[trigger] src[a] < #[trigger] src[b],
                forall|j: int| 0 <= j < i && #[trigger] self.entries[j].ns == ns ==> src.contains(j),
            decreases self.entries.len() - i,
        {
            let ghost old_src = src;
            if self.entries[i].ns == ns {
                r.push((self.entries[i].key, self.entries[i].value));
                proof {
                    src = src.push(i as int);
                }
            }
            proof {
                assert forall|j: int| 0 <= j < i + 1 && #[trigger] self.entries[j].ns == ns implies src.contains(j) by {
                    if j == i {
                        assert(src[src.len() - 1] == j);
                    } else {
                        assert(old_src.contains(j));
                        let a = choose|a: int| 0 <= a < old_src.len() && old_src[a] == j;
                        assert(src[a] == j);
                    }
                }
            }
            i = i + 1;
        }
        proof {
            let es = r@.map_values(|e: ([u8; 32], V)| (e.0@, e.1@));
            assert forall|a: int| 0 <= a < es.len() implies m.dom().contains((ns, #[trigger] es[a].0))
                && m[(ns, es[a].0)] == es[a].1 by {
                assert(src[a] == src[a]);
                self.lemma_entry_view(src[a]);
            }
            assert forall|a: int, b: int| 0 <= a < b < es.len() implies #[trigger] es[a].0 != #[trigger] es[b].0 by {
                assert(src[a] < src[b]);
                assert(self.key_at(src[a]) != self.key_at(src[b]));
            }
            assert forall|k: Seq<u8>| #[trigger] m.dom().contains((ns, k)) implies exists|a: int| 0 <= a < es.len() && es[a].0 == k by {
                let j = self.index_of((ns, k));
                assert(self.entries[j].ns == ns);
                assert(src.contains(j));
                let a = choose|a: int| 0 <= a < src.len() && src[a] == j;
                assert(es[a].0 == k);
            }
        }
        r
    }
}

impl<V: View + Copy> EntityStore<V> {
    /// Every entity stored under namespace tag `ns`, with its key, in
    /// ascending key order.
    pub fn entries_in(&self, ns: u8) -> (r: Vec<([u8; 32], V)>)
        ensures
            enumerates(self.entities(), ns, r@.map_values(|e: ([u8; 32], V)| (e.0@, e.1@))),
            keys_ascending(r@.map_values(|e: ([u8; 32], V)| (e.0@, e.1@))),
    {
        broadcast use vstd::seq_lib::group_to_multiset_ensures;
        let collected = self.collect_in(ns);
        let ghost m = self.entities();
        let ghost orig = collected@;
        proof {
            let es = orig.map_values(|e: ([u8; 32], V)| (e.0@, e.1@));
            assert forall|a: int, b: int| 0 <= a < b < orig.len() implies (#[trigger] orig[a]).0@ != (#[trigger] orig[b]).0@ by {
                assert(es[a].0 != es[b].0);
            }
        }
        let mut rest = collected;
        let mut out: Vec<([u8; 32], V)> = Vec::new();
        while 0 < rest.len()
            invariant
                (out@ + rest@).to_multiset() == orig.to_multiset(),
                forall|a: int, b: int| 0 <= a < b < rest@.len() ==> (#[trigger] rest@[a]).0@ != (#[trigger] rest@[b]).0@,
                forall|a: int, b: int| 0 <= a < b < out@.len() ==> key_lt((#[trigger] out@[a]).0@, (#[trigger] out@[b]).0@),
                forall|a: int, b: int| 0 <= a < out@.len() && 0 <= b < rest@.len() ==> key_lt((#[trigger] out@[a]).0@, (#[trigger] rest@[b]).0@),
            decreases rest.len(),
        {
            let mut best: usize = 0;
            let mut k: usize = 1;
            while k < rest.len()
                invariant
                    best < k,
                    1 <= k <= rest.len(),
                    forall|b: int| 0 <= b < k && b != best ==> key_lt(rest@[best as int].0@, (#[trigger] rest@[b]).0@),
                    forall|a: int, b: int| 0 <= a < b < rest@.len() ==> (#[trigger] rest@[a]).0@ != (#[trigger] rest@[b]).0@,
                decreases rest.len() - k,
            {
                proof {
                    assert(rest@[best as int].0@ != rest@[k as int].0@);
                    lemma_key_lt_total(rest@[best as int].0@, rest@[k as int].0@);
                }
                if key_less(&rest[k].0, &rest[best].0) {
                    proof {
                        assert forall|b: int| 0 <= b < k + 1 && b != k implies key_lt(rest@[k as int].0@, (#[trigger] rest@[b]).0@) by {
                            if b != best {
                                lemma_key_lt_order(rest@[k as int].0@, rest@[best as int].0@, rest@[b].0@);
                            }
                        }
                    }
                    best = k;
                }
                k = k + 1;
            }
            let ghost old_rest = rest@;
            let ghost old_out = out@;
            let x = rest.remove(best);
            out.push(x);
            proof {
                assert(rest@ == old_rest.remove(best as int));
                assert(out@ == old_out.push(x));
                vstd::seq_lib::to_multiset_remove(old_rest, best as int);
                vstd::seq_lib::to_multiset_build(old_out, x);
                vstd::seq_lib::lemma_multiset_commutative(out@, rest@);
                vstd::seq_lib::lemma_multiset_commutative(old_out, old_rest);
                vstd::seq_lib::to_multiset_contains(old_rest, x);
                assert(old_rest.contains(x));
                assert((out@ + rest@).to_multiset() =~= orig.to_multiset());
                assert forall|a: int, b: int| 0 <= a < b < rest@.len() implies (#[trigger] rest@[a]).0@ != (#[trigger] rest@[b]).0@ by {
                    let a0 = if a < best { a } else { a + 1 };
                    let b0 = if b < best { b } else { b + 1 };
                    assert(rest@[a] == old_rest[a0] && rest@[b] == old_rest[b0]);
                }
                assert forall|a: int, b: int| 0 <= a < out@.len() && 0 <= b < rest@.len() implies key_lt((#[trigger] out@[a]).0@, (#[trigger] rest@[b]).0@) by {
                    let b0 = if b < best { b } else { b + 1 };
                    assert(rest@[b] == old_rest[b0]);
                    if a < old_out.len() {
                        assert(out@[a] == old_out[a]);
                    }
                }
                assert forall|a: int, b: int| 0 <= a < b < out@.len() implies key_lt((#[trigger] out@[a]).0@, (#[trigger] out@[b]).0@) by {
                    assert(out@[a] == old_out[a]);
                    if b < old_out.len() { assert(out@[b] == old_out[b]); }
                }
            }
        }
        proof {
            assert(rest@ =~= Seq::<([u8; 32], V)>::empty());
            assert(out@ + rest@ =~= out@);
            let es = out@.map_values(|e: ([u8; 32], V)| (e.0@, e.1@));
            let os = orig.map_values(|e: ([u8; 32], V)| (e.0@, e.1@));
            assert forall|a: int| 0 <= a < es.len() implies m.dom().contains((ns, #[trigger] es[a].0))
                && m[(ns, es[a].0)] == es[a].1 by {
                vstd::seq_lib::to_multiset_contains(out@, out@[a]);
                vstd::seq_lib::to_multiset_contains(orig, out@[a]);
                assert(out@.contains(out@[a]));
                let j = choose|j: int| 0 <= j < orig.len() && orig[j] == out@[a];
                assert(os[j] == es[a]);
            }
            assert forall|a: int, b: int| 0 <= a < b < es.len() implies #[trigger] es[a].0 != #[trigger] es[b].0 by {
                lemma_key_lt_order(out@[a].0@, out@[b].0@, out@[b].0@);
            }
            assert forall|k: Seq<u8>| #[trigger] m.dom().contains((ns, k)) implies exists|a: int| 0 <= a < es.len() && es[a].0 == k by {
                let j = choose|j: int| 0 <= j < os.len() && os[j].0 == k;
                vstd::seq_lib::to_multiset_contains(orig, orig[j]);
                vstd::seq_lib::to_multiset_contains(out@, orig[j]);
                assert(orig.contains(orig[j]));
                let a = choose|a: int| 0 <= a < out@.len() && out@[a] == orig[j];
                assert(es[a].0 == k);
            }
        }
        out
    }
}

/// Byte-wise lexicographic order of keys.
pub open spec fn key_lt(a: Seq<u8>, b: Seq<u8>) -> bool
    decreases a.len(),
{
    if a.len() == 0 || b.len() == 0 {
        a.len() == 0 && b.len() > 0
    } else if a[0] != b[0] {
        a[0] < b[0]
    } else {
        key_lt(a.drop_first(), b.drop_first())
    }
}

/// The order of keys is irreflexive and transitive.
pub proof fn lemma_key_lt_order(a: Seq<u8>, b: Seq<u8>, c: Seq<u8>)
    ensures
        !key_lt(a, a),
        key_lt(a, b) && key_lt(b, c) ==> key_lt(a, c),
        key_lt(a, b) ==> !key_lt(b, a),
    decreases a.len(),
{
    if a.len() > 0 && b.len() > 0 && c.len() > 0 {
        lemma_key_lt_order(a.drop_first(), b.drop_first(), c.drop_first());
    }
    if a.len() > 0 {
        lemma_key_lt_order(a.drop_first(), a.drop_first(), a.drop_first());
    }
    if a.len() > 0 && b.len() > 0 {
        lemma_key_lt_order(a.drop_first(), b.drop_first(), b.drop_first());
    }
}

/// Distinct keys of one length are ordered one way or the other.
pub proof fn lemma_key_lt_total(a: Seq<u8>, b: Seq<u8>)
    requires
        a.len() == b.len(),
        a != b,
    ensures
        key_lt(a, b) || key_lt(b, a),
    decreases a.len(),
{
    if a.len() == 0 {
        assert(a =~= b);
    } else if a[0] == b[0] {
        if a.drop_first() == b.drop_first() {
            assert forall|i: int| 0 <= i < a.len() implies a[i] == b[i] by {
                if i > 0 {
                    assert(a[i] == a.drop_first()[i - 1]);
                    assert(b[i] == b.drop_first()[i - 1]);
                }
            }
            assert(a =~= b);
        }
        lemma_key_lt_total(a.drop_first(), b.drop_first());
    }
}

/// Whether `a` orders before `b`.
pub fn key_less(a: &[u8; 32], b: &[u8; 32]) -> (r: bool)
    ensures
        r == key_lt(a@, b@),
{
    let mut i: usize = 0;
    assert(a@.skip(0) =~= a@);
    assert(b@.skip(0) =~= b@);
    while i < 32
        invariant
            i <= 32,
            a@.len() == 32,
            b@.len() == 32,
            key_lt(a@, b@) == key_lt(a@.skip(i as int), b@.skip(i as int)),
        decreases 32 - i,
    {
        let ghost sa = a@.skip(i as int);
        let ghost sb = b@.skip(i as int);
        assert(sa[0] == a@[i as int] && sb[0] == b@[i as int]);
        if a[i] != b[i] {
            return a[i] < b[i];
        }
        assert(sa.drop_first() =~= a@.skip(i + 1));
        assert(sb.drop_first() =~= b@.skip(i + 1));
        i = i + 1;
    }
    assert(a@.skip(32).len() == 0);
    false
}

/// Whether entries are in strictly ascending key order.
pub open spec fn keys_ascending<W>(es: Seq<(Seq<u8>, W)>) -> bool {
    forall|i: int, j: int| 0 <= i < j < es.len() ==> key_lt(#[trigger] es[i].0, #[trigger] es[j].0)
}

/// Two listings of the entries under one namespace that are both in
/// ascending key order agree on their first `i` entries.
proof fn lemma_ordered_prefix_agrees<W>(m: Map<(u8, Seq<u8>), W>, ns: u8, a: Seq<(Seq<u8>, W)>, b: Seq<(Seq<u8>, W)>, i: int)
    requires
        enumerates(m, ns, a),
        enumerates(m, ns, b),
        keys_ascending(a),
        keys_ascending(b),
        0 <= i <= a.len(),
        i <= b.len(),
    ensures
        forall|k: int| 0 <= k < i ==> #[trigger] a[k] == b[k],
    decreases i,
{
    if i > 0 {
        lemma_ordered_prefix_agrees(m, ns, a, b, i - 1);
        let n = i - 1;
        let x = a[n].0;
        let y = b[n].0;
        assert(m.dom().contains((ns, x)));
        assert(m.dom().contains((ns, y)));
        let j = choose|j: int| 0 <= j < b.len() && b[j].0 == x;
        let j2 = choose|j2: int| 0 <= j2 < a.len() && a[j2].0 == y;
        if j < n {
            assert(a[j] == b[j]);
            assert(a[j].0 != a[n].0);
        }
        if j2 < n {
            assert(a[j2] == b[j2]);
            assert(b[j2].0 != b[n].0);
        }
        if x != y {
            assert(j != n && j2 != n);
            assert(key_lt(y, x));
            assert(key_lt(x, y));
            lemma_key_lt_order(x, y, x);
        }
        assert(a[n].1 == m[(ns, x)]);
        assert(b[n].1 == m[(ns, y)]);
        assert forall|k: int| 0 <= k < i implies #[trigger] a[k] == b[k] by {
            if k < n {
                assert(a[k] == b[k]);
            }
        }
    }
}

/// The listing of a namespace in ascending key order is unique: two such
/// listings of the same entries are equal.
pub proof fn lemma_ordered_listing_unique<W>(m: Map<(u8, Seq<u8>), W>, ns: u8, a: Seq<(Seq<u8>, W)>, b: Seq<(Seq<u8>, W)>)
    requires
        enumerates(m, ns, a),
        enumerates(m, ns, b),
        keys_ascending(a),
        keys_ascending(b),
    ensures
        a == b,
{
    if a.len() > b.len() {
        lemma_ordered_prefix_agrees(m, ns, a, b, b.len() as int);
        let n = b.len() as int;
        assert(m.dom().contains((ns, a[n].0)));
        let j = choose|j: int| 0 <= j < b.len() && b[j].0 == a[n].0;
        assert(a[j] == b[j]);
        assert(a[j].0 != a[n].0);
    } else if b.len() > a.len() {
        lemma_ordered_prefix_agrees(m, ns, b, a, a.len() as int);
        let n = a.len() as int;
        assert(m.dom().contains((ns, b[n].0)));
        let j = choose|j: int| 0 <= j < a.len() && a[j].0 == b[n].0;
        assert(b[j] == a[j]);
        assert(b[j].0 != b[n].0);
    } else {
        lemma_ordered_prefix_agrees(m, ns, a, b, a.len() as int);
        assert(a =~= b);
    }
}

} // verus!

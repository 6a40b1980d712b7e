//! The entities that the node keeps for Midnight (shielded and unshielded
//! UTxOs), the deltas that blocks produce, and how a delta changes an entity.

use vstd::prelude::*;
use crate::digest::{sha256, sha256_digest};

verus! {

/// The namespaces of the entity state.
#[derive(Clone, Copy, Debug, PartialEq, Eq, Structural)]
pub enum Namespace {
    /// `mn_shielded_utxo`
    ShieldedUtxo,
    /// `mn_unshielded_utxo`
    UnshieldedUtxo,
}

/// How a namespace stores its entities.
#[derive(Clone, Copy, Debug, PartialEq, Eq, Structural)]
pub enum NamespaceType {
    KeyValue,
}

impl Namespace {
    /// The store's tag for this namespace.
    pub open spec fn tag(self) -> u8 {
        match self {
            Namespace::ShieldedUtxo => 0,
            Namespace::UnshieldedUtxo => 1,
        }
    }

    /// The store's tag for this namespace.
    pub fn store_tag(&self) -> (r: u8)
        ensures
            r == self.tag(),
    {
        match self {
            Namespace::ShieldedUtxo => 0,
            Namespace::UnshieldedUtxo => 1,
        }
    }

    /// The namespace's name.
    pub open spec fn spec_name(self) -> Seq<char> {
        match self {
            Namespace::ShieldedUtxo => "mn_shielded_utxo"@,
            Namespace::UnshieldedUtxo => "mn_unshielded_utxo"@,
        }
    }

    /// The namespace's name.
    pub fn name(&self) -> (r: &'static str)
        ensures
            r@ == self.spec_name(),
    {
        match self {
            Namespace::ShieldedUtxo => "mn_shielded_utxo",
            Namespace::UnshieldedUtxo => "mn_unshielded_utxo",
        }
    }

    /// The namespace with the given name, if there is one.
    pub fn from_name(name: &str) -> (r: Option<Namespace>)
        ensures
            match r {
                Some(ns) => ns.spec_name() == name@,
                None => name@ != Namespace::ShieldedUtxo.spec_name()
                    && name@ != Namespace::UnshieldedUtxo.spec_name(),
            },
    {
        let given = String::from_str(name);
        if given == String::from_str("mn_shielded_utxo") {
            Some(Namespace::ShieldedUtxo)
        } else if given == String::from_str("mn_unshielded_utxo") {
            Some(Namespace::UnshieldedUtxo)
        } else {
            None
        }
    }
}

/// The namespaces of the state and how each stores its entities.
pub struct StateSchema {
    pub namespaces: Vec<(Namespace, NamespaceType)>,
}

/// The schema of the Midnight state: both UTxO namespaces, as key-value tables.
pub fn build_schema() -> (s: StateSchema)
    ensures
        s.namespaces@ == seq![
            (Namespace::ShieldedUtxo, NamespaceType::KeyValue),
            (Namespace::UnshieldedUtxo, NamespaceType::KeyValue),
        ],
{
    let mut namespaces = Vec::new();
    namespaces.push((Namespace::ShieldedUtxo, NamespaceType::KeyValue));
    namespaces.push((Namespace::UnshieldedUtxo, NamespaceType::KeyValue));
    StateSchema { namespaces }
}

/// A `u32` as four big-endian bytes.
pub open spec fn be32(x: u32) -> Seq<u8> {
    seq![
        (x / 0x100_0000) as u8,
        ((x / 0x1_0000) % 256) as u8,
        ((x / 0x100) % 256) as u8,
        (x % 256) as u8,
    ]
}

/// The bytes hashed into a UTxO's entity key: the intent hash, then the
/// output index in big-endian order.
pub open spec fn key_preimage(intent_hash: Seq<u8>, output_index: u32) -> Seq<u8> {
    intent_hash + be32(output_index)
}

/// The entity key of the UTxO `(intent_hash, output_index)`.
pub open spec fn spec_utxo_entity_key(intent_hash: Seq<u8>, output_index: u32) -> Seq<u8> {
    sha256_digest(key_preimage(intent_hash, output_index))
}

/// Computes the 32-byte entity key of a UTxO: SHA-256 over the intent hash
/// followed by the big-endian output index.
pub fn utxo_entity_key(intent_hash: &[u8; 32], output_index: u32) -> (key: [u8; 32])
    ensures
        key@ == spec_utxo_entity_key(intent_hash@, output_index),
{
    let mut pre: Vec<u8> = Vec::new();
    let mut i: usize = 0;
    while i < 32
        invariant
            i <= 32,
            pre@ == intent_hash@.subrange(0, i as int),
        decreases 32 - i,
    {
        pre.push(intent_hash[i]);
        i = i + 1;
    }
    assert(intent_hash@.subrange(0, 32) == intent_hash@);
    pre.push((output_index / 0x100_0000) as u8);
    pre.push(((output_index / 0x1_0000) % 256) as u8);
    pre.push(((output_index / 0x100) % 256) as u8);
    pre.push((output_index % 256) as u8);
    assert(pre@ =~= key_preimage(intent_hash@, output_index));
    sha256(pre.as_slice())
}

/// A shielded UTxO as stored: its ciphertexts for trial decryption, where and
/// when it was created and, once spent, where and when it was spent.
#[derive(Debug)]
pub struct ShieldedUtxoState {
    pub intent_hash: [u8; 32],
    pub output_index: u32,
    pub ciphertexts: Vec<Vec<u8>>,
    pub created_slot: u64,
    pub created_tx_hash: [u8; 32],
    pub spent_slot: Option<u64>,
    pub spent_tx_hash: Option<[u8; 32]>,
    pub ledger_version: u16,
    pub raw_coin: Vec<u8>,
}

/// The value of a shielded UTxO.
pub struct ShieldedUtxoView {
    pub intent_hash: [u8; 32],
    pub output_index: u32,
    pub ciphertexts: Seq<Seq<u8>>,
    pub created_slot: u64,
    pub created_tx_hash: [u8; 32],
    pub spent_slot: Option<u64>,
    pub spent_tx_hash: Option<[u8; 32]>,
    pub ledger_version: u16,
    pub raw_coin: Seq<u8>,
}

impl View for ShieldedUtxoState {
    type V = ShieldedUtxoView;

    open spec fn view(&self) -> ShieldedUtxoView {
        ShieldedUtxoView {
            intent_hash: self.intent_hash,
            output_index: self.output_index,
            ciphertexts: self.ciphertexts@.map_values(|c: Vec<u8>| c@),
            created_slot: self.created_slot,
            created_tx_hash: self.created_tx_hash,
            spent_slot: self.spent_slot,
            spent_tx_hash: self.spent_tx_hash,
            ledger_version: self.ledger_version,
            raw_coin: self.raw_coin@,
        }
    }
}

/// Copies a list of byte strings.
pub fn copy_byte_strings(v: &Vec<Vec<u8>>) -> (r: Vec<Vec<u8>>)
    ensures
        r@.map_values(|c: Vec<u8>| c@) == v@.map_values(|c: Vec<u8>| c@),
{
    let mut r: Vec<Vec<u8>> = Vec::new();
    let mut i: usize = 0;
    while i < v.len()
        invariant
            i <= v.len(),
            r.len() == i,
            forall|j: int| 0 <= j < i ==> r[j]@ == v[j]@,
        decreases v.len() - i,
    {
        r.push(v[i].clone());
        i = i + 1;
    }
    assert(r@.map_values(|c: Vec<u8>| c@) =~= v@.map_values(|c: Vec<u8>| c@));
    r
}

impl ShieldedUtxoState {
    /// A copy of this state.
    pub fn duplicate(&self) -> (r: Self)
        ensures
            r@ == self@,
    {
        ShieldedUtxoState {
            intent_hash: self.intent_hash,
            output_index: self.output_index,
            ciphertexts: copy_byte_strings(&self.ciphertexts),
            created_slot: self.created_slot,
            created_tx_hash: self.created_tx_hash,
            spent_slot: self.spent_slot,
            spent_tx_hash: self.spent_tx_hash,
            ledger_version: self.ledger_version,
            raw_coin: self.raw_coin.clone(),
        }
    }
}

/// An unshielded UTxO as stored: owner, token and value, where and when it
/// was created and, once spent, where and when it was spent.
#[derive(Clone, Copy, Debug)]
pub struct UnshieldedUtxoState {
    pub owner: [u8; 32],
    pub token_type: [u8; 32],
    pub value: u128,
    pub intent_hash: [u8; 32],
    pub output_index: u32,
    pub created_slot: u64,
    pub created_tx_hash: [u8; 32],
    pub spent_slot: Option<u64>,
    pub spent_tx_hash: Option<[u8; 32]>,
}

impl View for UnshieldedUtxoState {
    type V = UnshieldedUtxoState;

    open spec fn view(&self) -> UnshieldedUtxoState {
        *self
    }
}

/// An entity of the Midnight state.
#[derive(Debug)]
pub enum MidnightEntity {
    ShieldedUtxo(Box<ShieldedUtxoState>),
    UnshieldedUtxo(Box<UnshieldedUtxoState>),
}

/// The value of an entity.
pub enum EntityView {
    Shielded(ShieldedUtxoView),
    Unshielded(UnshieldedUtxoState),
}

impl View for MidnightEntity {
    type V = EntityView;

    open spec fn view(&self) -> EntityView {
        match self {
            MidnightEntity::ShieldedUtxo(s) => EntityView::Shielded((**s)@),
            MidnightEntity::UnshieldedUtxo(s) => EntityView::Unshielded(**s),
        }
    }
}

/// The namespace that an entity of this kind is stored in.
pub open spec fn entity_namespace(e: EntityView) -> Namespace {
    match e {
        EntityView::Shielded(_) => Namespace::ShieldedUtxo,
        EntityView::Unshielded(_) => Namespace::UnshieldedUtxo,
    }
}

impl MidnightEntity {
    /// The namespace this entity is stored in; its bytes are its serialization.
    pub fn namespace(&self) -> (ns: Namespace)
        ensures
            ns == entity_namespace(self@),
    {
        match self {
            MidnightEntity::ShieldedUtxo(_) => Namespace::ShieldedUtxo,
            MidnightEntity::UnshieldedUtxo(_) => Namespace::UnshieldedUtxo,
        }
    }

    /// A copy of this entity.
    pub fn duplicate(&self) -> (r: Self)
        ensures
            r@ == self@,
    {
        match self {
            MidnightEntity::ShieldedUtxo(s) => MidnightEntity::ShieldedUtxo(Box::new(s.duplicate())),
            MidnightEntity::UnshieldedUtxo(s) => MidnightEntity::UnshieldedUtxo(Box::new(**s)),
        }
    }
}

/// Why an entity could not be decoded.
#[derive(Debug)]
pub enum DecodeError {
    /// The namespace is not one of the Midnight state's.
    InvalidNamespace(String),
    /// The bytes are no serialization of the namespace's entity.
    Decode(String),
}

/// Which kind of entity the bytes stored under the namespace `ns` hold: the
/// shielded namespace holds shielded UTxOs, the unshielded one unshielded
/// UTxOs, and any other name is refused.
pub fn decode_target(ns: &str) -> (r: Result<Namespace, DecodeError>)
    ensures
        match r {
            Ok(n) => n.spec_name() == ns@,
            Err(DecodeError::InvalidNamespace(name)) => name@ == ns@
                && ns@ != Namespace::ShieldedUtxo.spec_name()
                && ns@ != Namespace::UnshieldedUtxo.spec_name(),
            Err(DecodeError::Decode(_)) => false,
        },
{
    match Namespace::from_name(ns) {
        Some(n) => Ok(n),
        None => Err(DecodeError::InvalidNamespace(String::from_str(ns))),
    }
}

/// Creates a shielded UTxO.
pub struct CreateShieldedUtxo {
    pub state: ShieldedUtxoState,
}

/// Marks a shielded UTxO spent.
#[derive(Clone, Copy, Debug)]
pub struct SpendShieldedUtxo {
    pub intent_hash: [u8; 32],
    pub output_index: u32,
    pub spent_slot: u64,
    pub spent_tx_hash: [u8; 32],
}

/// Creates an unshielded UTxO.
#[derive(Clone, Copy, Debug)]
pub struct CreateUnshieldedUtxo {
    pub state: UnshieldedUtxoState,
}

/// Marks an unshielded UTxO spent.
#[derive(Clone, Copy, Debug)]
pub struct SpendUnshieldedUtxo {
    pub intent_hash: [u8; 32],
    pub output_index: u32,
    pub spent_slot: u64,
    pub spent_tx_hash: [u8; 32],
}

/// A change to one entity of the state.
pub enum MidnightDelta {
    CreateShieldedUtxo(Box<CreateShieldedUtxo>),
    SpendShieldedUtxo(Box<SpendShieldedUtxo>),
    CreateUnshieldedUtxo(Box<CreateUnshieldedUtxo>),
    SpendUnshieldedUtxo(Box<SpendUnshieldedUtxo>),
}

/// The value of a delta.
pub enum DeltaView {
    CreateShielded(ShieldedUtxoView),
    SpendShielded(SpendShieldedUtxo),
    CreateUnshielded(UnshieldedUtxoState),
    SpendUnshielded(SpendUnshieldedUtxo),
}

impl View for MidnightDelta {
    type V = DeltaView;

    open spec fn view(&self) -> DeltaView {
        match self {
            MidnightDelta::CreateShieldedUtxo(d) => DeltaView::CreateShielded(d.state@),
            MidnightDelta::SpendShieldedUtxo(d) => DeltaView::SpendShielded(**d),
            MidnightDelta::CreateUnshieldedUtxo(d) => DeltaView::CreateUnshielded(d.state),
            MidnightDelta::SpendUnshieldedUtxo(d) => DeltaView::SpendUnshielded(**d),
        }
    }
}

/// A namespace and an entity key: where a delta applies.
#[derive(Clone, Copy, Debug)]
pub struct NsKey {
    pub ns: Namespace,
    pub key: [u8; 32],
}

/// Where a delta applies: the UTxO's namespace and its entity key.
pub open spec fn delta_key(d: DeltaView) -> (Namespace, Seq<u8>) {
    match d {
        DeltaView::CreateShielded(s) => (
            Namespace::ShieldedUtxo,
            spec_utxo_entity_key(s.intent_hash@, s.output_index),
        ),
        DeltaView::SpendShielded(s) => (
            Namespace::ShieldedUtxo,
            spec_utxo_entity_key(s.intent_hash@, s.output_index),
        ),
        DeltaView::CreateUnshielded(s) => (
            Namespace::UnshieldedUtxo,
            spec_utxo_entity_key(s.intent_hash@, s.output_index),
        ),
        DeltaView::SpendUnshielded(s) => (
            Namespace::UnshieldedUtxo,
            spec_utxo_entity_key(s.intent_hash@, s.output_index),
        ),
    }
}

/// What applying a delta makes of the entity under its key: a creation
/// stores its state; a spend records the spending slot and transaction on an
/// entity of its own kind and leaves anything else as it is.
pub open spec fn apply_delta(d: DeltaView, e: Option<EntityView>) -> Option<EntityView> {
    match d {
        DeltaView::CreateShielded(s) => Some(EntityView::Shielded(s)),
        DeltaView::CreateUnshielded(s) => Some(EntityView::Unshielded(s)),
        DeltaView::SpendShielded(sp) => match e {
            Some(EntityView::Shielded(st)) => Some(EntityView::Shielded(ShieldedUtxoView {
                spent_slot: Some(sp.spent_slot),
                spent_tx_hash: Some(sp.spent_tx_hash),
                ..st
            })),
            _ => e,
        },
        DeltaView::SpendUnshielded(sp) => match e {
            Some(EntityView::Unshielded(st)) => Some(EntityView::Unshielded(UnshieldedUtxoState {
                spent_slot: Some(sp.spent_slot),
                spent_tx_hash: Some(sp.spent_tx_hash),
                ..st
            })),
            _ => e,
        },
    }
}

/// What undoing a delta makes of the entity under its key: a creation
/// removes it; a spend clears the spending slot and transaction of an entity
/// of its own kind and leaves anything else as it is.
pub open spec fn undo_delta(d: DeltaView, e: Option<EntityView>) -> Option<EntityView> {
    match d {
        DeltaView::CreateShielded(_) => None,
        DeltaView::CreateUnshielded(_) => None,
        DeltaView::SpendShielded(_) => match e {
            Some(EntityView::Shielded(st)) => Some(EntityView::Shielded(ShieldedUtxoView {
                spent_slot: None,
                spent_tx_hash: None,
                ..st
            })),
            _ => e,
        },
        DeltaView::SpendUnshielded(_) => match e {
            Some(EntityView::Unshielded(st)) => Some(EntityView::Unshielded(UnshieldedUtxoState {
                spent_slot: None,
                spent_tx_hash: None,
                ..st
            })),
            _ => e,
        },
    }
}

/// The view of an optional entity.
pub open spec fn opt_entity_view(e: Option<MidnightEntity>) -> Option<EntityView> {
    match e {
        Some(x) => Some(x@),
        None => None,
    }
}

impl MidnightDelta {
    /// The namespace and entity key of the UTxO this delta changes.
    pub fn key(&self) -> (k: NsKey)
        ensures
            (k.ns, k.key@) == delta_key(self@),
    {
        match self {
            MidnightDelta::CreateShieldedUtxo(d) => NsKey {
                ns: Namespace::ShieldedUtxo,
                key: utxo_entity_key(&d.state.intent_hash, d.state.output_index),
            },
            MidnightDelta::SpendShieldedUtxo(d) => NsKey {
                ns: Namespace::ShieldedUtxo,
                key: utxo_entity_key(&d.intent_hash, d.output_index),
            },
            MidnightDelta::CreateUnshieldedUtxo(d) => NsKey {
                ns: Namespace::UnshieldedUtxo,
                key: utxo_entity_key(&d.state.intent_hash, d.state.output_index),
            },
            MidnightDelta::SpendUnshieldedUtxo(d) => NsKey {
                ns: Namespace::UnshieldedUtxo,
                key: utxo_entity_key(&d.intent_hash, d.output_index),
            },
        }
    }

    /// Applies this delta to the entity stored under its key.
    pub fn apply(&self, entity: &mut Option<MidnightEntity>)
        ensures
            opt_entity_view(*final(entity)) == apply_delta(self@, opt_entity_view(*old(entity))),
    {
        match self {
            MidnightDelta::CreateShieldedUtxo(d) => {
                *entity = Some(MidnightEntity::ShieldedUtxo(Box::new(d.state.duplicate())));
            },
            MidnightDelta::SpendShieldedUtxo(d) => {
                let current = entity.take();
                *entity = match current {
                    Some(MidnightEntity::ShieldedUtxo(st)) => {
                        let mut s = *st;
                        s.spent_slot = Some(d.spent_slot);
                        s.spent_tx_hash = Some(d.spent_tx_hash);
                        Some(MidnightEntity::ShieldedUtxo(Box::new(s)))
                    },
                    other => other,
                };
            },
            MidnightDelta::CreateUnshieldedUtxo(d) => {
                *entity = Some(MidnightEntity::UnshieldedUtxo(Box::new(d.state)));
            },
            MidnightDelta::SpendUnshieldedUtxo(d) => {
                let current = entity.take();
                *entity = match current {
                    Some(MidnightEntity::UnshieldedUtxo(st)) => {
                        let mut s = *st;
                        s.spent_slot = Some(d.spent_slot);
                        s.spent_tx_hash = Some(d.spent_tx_hash);
                        Some(MidnightEntity::UnshieldedUtxo(Box::new(s)))
                    },
                    other => other,
                };
            },
        }
    }

    /// Reverts this delta on the entity stored under its key.
    pub fn undo(&self, entity: &mut Option<MidnightEntity>)
        ensures
            opt_entity_view(*final(entity)) == undo_delta(self@, opt_entity_view(*old(entity))),
    {
        match self {
            MidnightDelta::CreateShieldedUtxo(_) | MidnightDelta::CreateUnshieldedUtxo(_) => {
                *entity = None;
            },
            MidnightDelta::SpendShieldedUtxo(_) => {
                let current = entity.take();
                *entity = match current {
                    Some(MidnightEntity::ShieldedUtxo(st)) => {
                        let mut s = *st;
                        s.spent_slot = None;
                        s.spent_tx_hash = None;
                        Some(MidnightEntity::ShieldedUtxo(Box::new(s)))
                    },
                    other => other,
                };
            },
            MidnightDelta::SpendUnshieldedUtxo(_) => {
                let current = entity.take();
                *entity = match current {
                    Some(MidnightEntity::UnshieldedUtxo(st)) => {
                        let mut s = *st;
                        s.spent_slot = None;
                        s.spent_tx_hash = None;
                        Some(MidnightEntity::UnshieldedUtxo(Box::new(s)))
                    },
                    other => other,
                };
            },
        }
    }

    /// A copy of this delta.
    pub fn duplicate(&self) -> (r: Self)
        ensures
            r@ == self@,
    {
        match self {
            MidnightDelta::CreateShieldedUtxo(d) => MidnightDelta::CreateShieldedUtxo(
                Box::new(CreateShieldedUtxo { state: d.state.duplicate() }),
            ),
            MidnightDelta::SpendShieldedUtxo(d) => MidnightDelta::SpendShieldedUtxo(Box::new(**d)),
            MidnightDelta::CreateUnshieldedUtxo(d) => MidnightDelta::CreateUnshieldedUtxo(
                Box::new(**d),
            ),
            MidnightDelta::SpendUnshieldedUtxo(d) => MidnightDelta::SpendUnshieldedUtxo(
                Box::new(**d),
            ),
        }
    }
}

/// Whether undoing `d` right after applying it gives `e` back: a creation
/// must find nothing under its key, and a spend must find either no entity of
/// its own kind or one not yet marked spent.
pub open spec fn undo_restores(d: DeltaView, e: Option<EntityView>) -> bool {
    match d {
        DeltaView::CreateShielded(_) | DeltaView::CreateUnshielded(_) => e is None,
        DeltaView::SpendShielded(_) => match e {
            Some(EntityView::Shielded(st)) => st.spent_slot is None && st.spent_tx_hash is None,
            _ => true,
        },
        DeltaView::SpendUnshielded(_) => match e {
            Some(EntityView::Unshielded(st)) => st.spent_slot is None && st.spent_tx_hash is None,
            _ => true,
        },
    }
}

/// Undoing a delta right after applying it restores the entity, whenever the
/// delta met the entity it was made for: nothing before a creation, an
/// unspent UTxO before a spend.
pub proof fn lemma_undo_after_apply(d: DeltaView, e: Option<EntityView>)
    requires
        undo_restores(d, e),
    ensures
        undo_delta(d, apply_delta(d, e)) == e,
{
}

/// Applying a delta twice has the effect of applying it once.
pub proof fn lemma_apply_idempotent(d: DeltaView, e: Option<EntityView>)
    ensures
        apply_delta(d, apply_delta(d, e)) == apply_delta(d, e),
{
}

/// A spend of the UTxO `(intent_hash, output_index)` is keyed where the
/// creation of that UTxO stored it, for shielded and unshielded UTxOs alike.
pub proof fn lemma_spend_finds_created(
    shielded: ShieldedUtxoView,
    spend_shielded: SpendShieldedUtxo,
    unshielded: UnshieldedUtxoState,
    spend_unshielded: SpendUnshieldedUtxo,
)
    requires
        spend_shielded.intent_hash == shielded.intent_hash,
        spend_shielded.output_index == shielded.output_index,
        spend_unshielded.intent_hash == unshielded.intent_hash,
        spend_unshielded.output_index == unshielded.output_index,
    ensures
        delta_key(DeltaView::SpendShielded(spend_shielded)) == delta_key(
            DeltaView::CreateShielded(shielded),
        ),
        delta_key(DeltaView::SpendUnshielded(spend_unshielded)) == delta_key(
            DeltaView::CreateUnshielded(unshielded),
        ),
{
}

/// An entity that a delta leaves under its key belongs to the key's
/// namespace, provided the entity found there did.
pub proof fn lemma_apply_keeps_namespace(d: DeltaView, e: Option<EntityView>)
    requires
        e matches Some(x) ==> entity_namespace(x) == delta_key(d).0,
    ensures
        apply_delta(d, e) matches Some(x) ==> entity_namespace(x) == delta_key(d).0,
        undo_delta(d, e) matches Some(x) ==> entity_namespace(x) == delta_key(d).0,
{
}

/// A spend applied to the unshielded UTxO it is meant for records the
/// spending slot and transaction and keeps everything else of the UTxO; a
/// creation stores exactly the UTxO it carries, whatever was there.
pub proof fn lemma_unshielded_spend_records(sp: SpendUnshieldedUtxo, st: UnshieldedUtxoState, e: Option<EntityView>)
    ensures
        apply_delta(DeltaView::SpendUnshielded(sp), Some(EntityView::Unshielded(st)))
            == Some(EntityView::Unshielded(UnshieldedUtxoState {
                owner: st.owner,
                token_type: st.token_type,
                value: st.value,
                intent_hash: st.intent_hash,
                output_index: st.output_index,
                created_slot: st.created_slot,
                created_tx_hash: st.created_tx_hash,
                spent_slot: Some(sp.spent_slot),
                spent_tx_hash: Some(sp.spent_tx_hash),
            })),
        apply_delta(DeltaView::CreateUnshielded(st), e) == Some(EntityView::Unshielded(st)),
{
}

/// A spend applied to the shielded UTxO it is meant for records the
/// spending slot and transaction and keeps everything else of the UTxO; a
/// creation stores exactly the UTxO it carries, whatever was there.
pub proof fn lemma_shielded_spend_records(sp: SpendShieldedUtxo, st: ShieldedUtxoView, e: Option<EntityView>)
    ensures
        apply_delta(DeltaView::SpendShielded(sp), Some(EntityView::Shielded(st)))
            == Some(EntityView::Shielded(ShieldedUtxoView {
                intent_hash: st.intent_hash,
                output_index: st.output_index,
                ciphertexts: st.ciphertexts,
                created_slot: st.created_slot,
                created_tx_hash: st.created_tx_hash,
                spent_slot: Some(sp.spent_slot),
                spent_tx_hash: Some(sp.spent_tx_hash),
                ledger_version: st.ledger_version,
                raw_coin: st.raw_coin,
            })),
        apply_delta(DeltaView::CreateShielded(st), e) == Some(EntityView::Shielded(st)),
{
}

/// A spend leaves alone what is not a UTxO of its kind, and undoing a spend
/// clears the spending slot and transaction and keeps everything else.
pub proof fn lemma_spend_undo_clears(sp: SpendUnshieldedUtxo, st: UnshieldedUtxoState, ssp: SpendShieldedUtxo, sst: ShieldedUtxoView)
    ensures
        apply_delta(DeltaView::SpendUnshielded(sp), None) is None,
        apply_delta(DeltaView::SpendShielded(ssp), None) is None,
        apply_delta(DeltaView::SpendUnshielded(sp), Some(EntityView::Shielded(sst))) == Some(EntityView::Shielded(sst)),
        apply_delta(DeltaView::SpendShielded(ssp), Some(EntityView::Unshielded(st))) == Some(EntityView::Unshielded(st)),
        undo_delta(DeltaView::SpendUnshielded(sp), Some(EntityView::Unshielded(st)))
            == Some(EntityView::Unshielded(UnshieldedUtxoState {
                owner: st.owner,
                token_type: st.token_type,
                value: st.value,
                intent_hash: st.intent_hash,
                output_index: st.output_index,
                created_slot: st.created_slot,
                created_tx_hash: st.created_tx_hash,
                spent_slot: None,
                spent_tx_hash: None,
            })),
        undo_delta(DeltaView::SpendShielded(ssp), Some(EntityView::Shielded(sst)))
            == Some(EntityView::Shielded(ShieldedUtxoView {
                intent_hash: sst.intent_hash,
                output_index: sst.output_index,
                ciphertexts: sst.ciphertexts,
                created_slot: sst.created_slot,
                created_tx_hash: sst.created_tx_hash,
                spent_slot: None,
                spent_tx_hash: None,
                ledger_version: sst.ledger_version,
                raw_coin: sst.raw_coin,
            })),
{
}

} // verus!

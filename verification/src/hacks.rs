//! Known chain quirks that the ledger applies by lookup: stake pointers whose
//! credential is given explicitly, and governance proposals whose outcome is
//! fixed.

use vstd::prelude::*;
use crate::text::{hex_decode_exact, parse_hash28};

verus! {

/// A stake pointer (slot, transaction index, certificate index) and the hex
/// key hash of the credential it stands for.
#[derive(Debug)]
pub struct PointerHack {
    pub slot: u64,
    pub tx_idx: u32,
    pub cert_idx: u32,
    pub credential: String,
}

/// The fixed outcome of a proposal.
#[derive(Clone, Copy, Debug, PartialEq, Eq, Structural)]
pub enum ProposalOutcomeHack {
    Ratified,
    Canceled,
}

/// A proposal (by hash) and its fixed outcome and epoch.
#[derive(Debug)]
pub struct ProposalHack {
    pub id: String,
    pub outcome: ProposalOutcomeHack,
    pub epoch: u64,
}

/// The known quirks.
#[derive(Debug)]
pub struct Hacks {
    pub pointers: Vec<PointerHack>,
    pub proposals: Vec<ProposalHack>,
}

impl Hacks {
    /// No quirks.
    pub fn default() -> (h: Self)
        ensures
            h.pointers@.len() == 0,
            h.proposals@.len() == 0,
    {
        Hacks { pointers: Vec::new(), proposals: Vec::new() }
    }
}

/// A stake pointer.
#[derive(Clone, Copy, Debug)]
pub struct Pointer {
    pub slot: u64,
    pub tx_idx: u64,
    pub cert_idx: u64,
}

/// A stake credential.
#[derive(Clone, Copy, Debug)]
pub enum StakeCredential {
    AddrKeyhash([u8; 28]),
    ScriptHash([u8; 28]),
}

/// Whether a pointer quirk is the one for `p`.
pub open spec fn pointer_matches(h: PointerHack, p: Pointer) -> bool {
    h.slot == p.slot && h.tx_idx as u64 == p.tx_idx && h.cert_idx as u64 == p.cert_idx
}

/// The position of the first pointer quirk for `p`, if any.
pub open spec fn first_pointer_match(hs: Seq<PointerHack>, p: Pointer) -> Option<int> {
    if exists|i: int| 0 <= i < hs.len() && pointer_matches(#[trigger] hs[i], p) {
        Some(choose|i: int| 0 <= i < hs.len() && pointer_matches(#[trigger] hs[i], p)
            && forall|j: int| 0 <= j < i ==> !pointer_matches(#[trigger] hs[j], p))
    } else {
        None
    }
}

proof fn lemma_first_match_exists(hs: Seq<PointerHack>, p: Pointer, i: int)
    requires
        0 <= i < hs.len(),
        pointer_matches(hs[i], p),
        forall|j: int| 0 <= j < i ==> !pointer_matches(#[trigger] hs[j], p),
    ensures
        first_pointer_match(hs, p) == Some(i),
{
    let k = choose|k: int| 0 <= k < hs.len() && pointer_matches(#[trigger] hs[k], p)
        && forall|j: int| 0 <= j < k ==> !pointer_matches(#[trigger] hs[j], p);
    if k < i {
        assert(!pointer_matches(hs[k], p));
    } else if k > i {
        assert(!pointer_matches(hs[i], p));
    }
}

/// The credential that a pointer stands for: the first pointer quirk for it
/// decides, and its hex credential must denote a 28-byte key hash.
pub fn pointer_to_cred(hacks: &Hacks, pointer: &Pointer) -> (r: Option<StakeCredential>)
    ensures
        match first_pointer_match(hacks.pointers@, *pointer) {
            Some(i) => match hex_decode_exact(hacks.pointers@[i].credential@, 28) {
                Some(bytes) => r matches Some(StakeCredential::AddrKeyhash(h)) && h@ == bytes,
                None => r is None,
            },
            None => r is None,
        },
{
    let mut i: usize = 0;
    while i < hacks.pointers.len()
        invariant
            i <= hacks.pointers.len(),
            forall|j: int| 0 <= j < i ==> !pointer_matches(#[trigger] hacks.pointers@[j], *pointer),
        decreases hacks.pointers.len() - i,
    {
        let hack = &hacks.pointers[i];
        if hack.slot == pointer.slot && (hack.tx_idx as u64) == pointer.tx_idx
            && (hack.cert_idx as u64) == pointer.cert_idx {
            proof { lemma_first_match_exists(hacks.pointers@, *pointer, i as int); }
            return match parse_hash28(hack.credential.as_str()) {
                Some(h) => Some(StakeCredential::AddrKeyhash(h)),
                None => None,
            };
        }
        i = i + 1;
    }
    None
}

/// The outcome that the ledger applies to a proposal.
#[derive(Clone, Copy, Debug)]
pub enum ProposalOutcome {
    Canceled(u64),
    Ratified(u64),
    RatifiedCurrentEpoch,
    Unknown,
}

/// The position of the first proposal quirk with hash `id`, if any.
pub open spec fn first_proposal_match(ps: Seq<ProposalHack>, id: Seq<char>) -> Option<int> {
    if exists|i: int| 0 <= i < ps.len() && (#[trigger] ps[i]).id@ == id {
        Some(choose|i: int| 0 <= i < ps.len() && (#[trigger] ps[i]).id@ == id
            && forall|j: int| 0 <= j < i ==> (#[trigger] ps[j]).id@ != id)
    } else {
        None
    }
}

proof fn lemma_first_proposal_exists(ps: Seq<ProposalHack>, id: Seq<char>, i: int)
    requires
        0 <= i < ps.len(),
        ps[i].id@ == id,
        forall|j: int| 0 <= j < i ==> (#[trigger] ps[j]).id@ != id,
    ensures
        first_proposal_match(ps, id) == Some(i),
{
    let k = choose|k: int| 0 <= k < ps.len() && (#[trigger] ps[k]).id@ == id
        && forall|j: int| 0 <= j < k ==> (#[trigger] ps[j]).id@ != id;
    if k < i {
        assert(ps[k].id@ != id);
    } else if k > i {
        assert(ps[i].id@ != id);
    }
}

/// The outcome of a proposal: the first quirk for its hash fixes it as
/// ratified or canceled in the quirk's epoch; without one it is unknown.
pub fn outcome(hacks: &Hacks, protocol: u16, proposal: &str) -> (r: ProposalOutcome)
    ensures
        match first_proposal_match(hacks.proposals@, proposal@) {
            Some(i) => match hacks.proposals@[i].outcome {
                ProposalOutcomeHack::Ratified => r == ProposalOutcome::Ratified(hacks.proposals@[i].epoch),
                ProposalOutcomeHack::Canceled => r == ProposalOutcome::Canceled(hacks.proposals@[i].epoch),
            },
            None => r == ProposalOutcome::Unknown,
        },
{
    let wanted = String::from_str(proposal);
    let mut i: usize = 0;
    while i < hacks.proposals.len()
        invariant
            i <= hacks.proposals.len(),
            wanted@ == proposal@,
            forall|j: int| 0 <= j < i ==> (#[trigger] hacks.proposals@[j]).id@ != proposal@,
        decreases hacks.proposals.len() - i,
    {
        let hack = &hacks.proposals[i];
        if hack.id == wanted {
            proof { lemma_first_proposal_exists(hacks.proposals@, proposal@, i as int); }
            return match hack.outcome {
                ProposalOutcomeHack::Ratified => ProposalOutcome::Ratified(hack.epoch),
                ProposalOutcomeHack::Canceled => ProposalOutcome::Canceled(hack.epoch),
            };
        }
        i = i + 1;
    }
    ProposalOutcome::Unknown
}

} // verus!

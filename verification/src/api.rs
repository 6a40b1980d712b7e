//! The node's REST API: requests, responses, and the answers drawn from the
//! state's cursor.

use vstd::prelude::*;
use crate::chain_types::ChainPoint;
use crate::model::MidnightEntity;
use crate::store::EntityStore;
use crate::text::{hex_encode, hex_lower};

verus! {

/// A query for the shielded UTxOs that a viewing key can decrypt.
#[derive(Debug)]
pub struct ShieldedUtxoRequest {
    /// Hex-encoded 32-byte viewing key.
    pub viewing_key: String,
    pub from_slot: Option<u64>,
    pub to_slot: Option<u64>,
    pub include_spent: bool,
}

/// Whether a shielded query includes spent outputs when the request leaves it out.
pub fn default_include_spent() -> (r: bool)
    ensures
        r,
{
    true
}

/// Decrypted coin information as the API shows it.
#[derive(Debug)]
pub struct DecryptedInfo {
    pub value: String,
    pub token_type: Option<String>,
}

/// A shielded UTxO as the API shows it.
#[derive(Debug)]
pub struct ShieldedUtxoInfo {
    pub intent_hash: String,
    pub output_index: u32,
    pub created_slot: u64,
    pub created_tx_hash: String,
    pub spent_slot: Option<u64>,
    pub spent_tx_hash: Option<String>,
    pub decrypted: Option<DecryptedInfo>,
}

/// The answer to a shielded query.
#[derive(Debug)]
pub struct ShieldedUtxoResponse {
    pub utxos: Vec<ShieldedUtxoInfo>,
    pub tip_slot: Option<u64>,
}

/// A query for unshielded UTxOs, optionally of one owner.
#[derive(Debug)]
pub struct UnshieldedQuery {
    pub owner: Option<String>,
}

/// An unshielded UTxO as the API shows it.
#[derive(Debug)]
pub struct UnshieldedUtxoInfo {
    pub owner: String,
    pub token_type: String,
    pub value: String,
    pub intent_hash: String,
    pub output_index: u32,
    pub created_slot: u64,
    pub created_tx_hash: String,
    pub spent_slot: Option<u64>,
    pub spent_tx_hash: Option<String>,
}

/// The answer to an unshielded query.
#[derive(Debug)]
pub struct UnshieldedUtxoResponse {
    pub utxos: Vec<UnshieldedUtxoInfo>,
    pub tip_slot: Option<u64>,
}

/// The node's sync status.
#[derive(Debug)]
pub struct StatusResponse {
    pub tip_slot: Option<u64>,
    pub tip_hash: Option<String>,
}

/// The tip slot that queries report for a cursor: the slot of a specific
/// point, 0 for any other point, none without a cursor.
pub open spec fn spec_tip_slot(cursor: Option<ChainPoint>) -> Option<u64> {
    match cursor {
        Some(ChainPoint::Specific(slot, _)) => Some(slot),
        Some(_) => Some(0),
        None => None,
    }
}

/// The tip slot that queries report.
pub fn tip_slot(cursor: Option<ChainPoint>) -> (r: Option<u64>)
    ensures
        r == spec_tip_slot(cursor),
{
    match cursor {
        Some(ChainPoint::Specific(slot, _)) => Some(slot),
        Some(_) => Some(0),
        None => None,
    }
}

/// Answers a shielded query: no UTxOs are listed yet; the tip slot is the
/// state's.
pub fn query_shielded_utxos(state: &EntityStore<MidnightEntity>, req: &ShieldedUtxoRequest) -> (r: ShieldedUtxoResponse)
    ensures
        r.utxos@.len() == 0,
        r.tip_slot == spec_tip_slot(state.cursor_point()),
{
    ShieldedUtxoResponse { utxos: Vec::new(), tip_slot: tip_slot(state.read_cursor()) }
}

/// Answers an unshielded query: no UTxOs are listed yet; the tip slot is the
/// state's.
pub fn query_unshielded_utxos(state: &EntityStore<MidnightEntity>, query: &UnshieldedQuery) -> (r: UnshieldedUtxoResponse)
    ensures
        r.utxos@.len() == 0,
        r.tip_slot == spec_tip_slot(state.cursor_point()),
{
    UnshieldedUtxoResponse { utxos: Vec::new(), tip_slot: tip_slot(state.read_cursor()) }
}

/// The sync status: slot and hex hash of the cursor when it is a specific
/// point, nothing otherwise.
pub fn get_status(state: &EntityStore<MidnightEntity>) -> (r: StatusResponse)
    ensures
        match state.cursor_point() {
            Some(ChainPoint::Specific(slot, hash)) => r.tip_slot == Some(slot)
                && (r.tip_hash matches Some(h) && h@ == hex_lower(hash@)),
            _ => r.tip_slot is None && r.tip_hash is None,
        },
{
    match state.read_cursor() {
        Some(ChainPoint::Specific(slot, hash)) => StatusResponse {
            tip_slot: Some(slot),
            tip_hash: Some(hex_encode(&hash)),
        },
        _ => StatusResponse { tip_slot: None, tip_hash: None },
    }
}

} // verus!

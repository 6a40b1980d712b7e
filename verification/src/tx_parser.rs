//! The structured form of a block's Midnight transactions, and the parsers
//! that produce it from a raw block.

use vstd::prelude::*;
use crate::block_source::{RawSubstrateBlock, RawBlockView};
use crate::chain::{MidnightError, MidnightErrorView};
use crate::model::copy_byte_strings;

verus! {

/// The kind of an extrinsic.
#[derive(Clone, Copy, Debug, PartialEq, Eq, Structural)]
pub enum TxType {
    /// A regular Midnight transaction.
    Regular,
    /// A system or inherent extrinsic.
    System,
}

/// A shielded output: ciphertexts for trial decryption and the coin's bytes.
#[derive(Debug)]
pub struct ShieldedOutput {
    pub output_index: u32,
    pub ciphertexts: Vec<Vec<u8>>,
    pub raw_coin: Vec<u8>,
    pub ledger_version: u16,
}

/// The value of a shielded output.
pub struct ShieldedOutputView {
    pub output_index: u32,
    pub ciphertexts: Seq<Seq<u8>>,
    pub raw_coin: Seq<u8>,
    pub ledger_version: u16,
}

impl View for ShieldedOutput {
    type V = ShieldedOutputView;

    open spec fn view(&self) -> ShieldedOutputView {
        ShieldedOutputView {
            output_index: self.output_index,
            ciphertexts: self.ciphertexts@.map_values(|c: Vec<u8>| c@),
            raw_coin: self.raw_coin@,
            ledger_version: self.ledger_version,
        }
    }
}

/// A shielded input, identified by its nullifier.
#[derive(Clone, Copy, Debug)]
pub struct ShieldedInput {
    pub nullifier: [u8; 32],
}

/// An unshielded output.
#[derive(Clone, Copy, Debug)]
pub struct UnshieldedOutput {
    pub owner: [u8; 32],
    pub token_type: [u8; 32],
    pub value: u128,
    pub output_index: u32,
}

/// An unshielded input.
#[derive(Clone, Copy, Debug)]
pub struct UnshieldedInput {
    pub owner: [u8; 32],
    pub token_type: [u8; 32],
    pub value: u128,
}

/// A transaction of a block, with its outputs and inputs.
#[derive(Debug)]
pub struct ParsedTransaction {
    pub tx_hash: [u8; 32],
    pub tx_type: TxType,
    pub shielded_outputs: Vec<ShieldedOutput>,
    pub shielded_inputs: Vec<ShieldedInput>,
    pub unshielded_outputs: Vec<UnshieldedOutput>,
    pub unshielded_inputs: Vec<UnshieldedInput>,
    pub raw: Vec<u8>,
}

/// The value of a transaction.
pub struct ParsedTxView {
    pub tx_hash: [u8; 32],
    pub tx_type: TxType,
    pub shielded_outputs: Seq<ShieldedOutputView>,
    pub shielded_inputs: Seq<ShieldedInput>,
    pub unshielded_outputs: Seq<UnshieldedOutput>,
    pub unshielded_inputs: Seq<UnshieldedInput>,
    pub raw: Seq<u8>,
}

impl View for ParsedTransaction {
    type V = ParsedTxView;

    open spec fn view(&self) -> ParsedTxView {
        ParsedTxView {
            tx_hash: self.tx_hash,
            tx_type: self.tx_type,
            shielded_outputs: self.shielded_outputs@.map_values(|o: ShieldedOutput| o@),
            shielded_inputs: self.shielded_inputs@,
            unshielded_outputs: self.unshielded_outputs@,
            unshielded_inputs: self.unshielded_inputs@,
            raw: self.raw@,
        }
    }
}

/// A block with its transactions parsed.
#[derive(Debug)]
pub struct ParsedBlock {
    pub slot: u64,
    pub hash: [u8; 32],
    pub timestamp: Option<u64>,
    pub transactions: Vec<ParsedTransaction>,
}

/// The value of a parsed block.
pub struct ParsedBlockView {
    pub slot: u64,
    pub hash: [u8; 32],
    pub timestamp: Option<u64>,
    pub transactions: Seq<ParsedTxView>,
}

impl View for ParsedBlock {
    type V = ParsedBlockView;

    open spec fn view(&self) -> ParsedBlockView {
        ParsedBlockView {
            slot: self.slot,
            hash: self.hash,
            timestamp: self.timestamp,
            transactions: self.transactions@.map_values(|t: ParsedTransaction| t@),
        }
    }
}

/// Turns a raw block's extrinsics into structured Midnight transactions.
pub trait ExtrinsicParser {
    /// What parsing `block` gives: the parsed block, or none when it fails.
    spec fn parse_result(&self, block: RawBlockView) -> Option<ParsedBlockView>;

    /// Why parsing `block` fails, where it does.
    spec fn parse_error(&self, block: RawBlockView) -> MidnightErrorView;

    /// Parses `block`.
    fn parse_block(&self, block: &RawSubstrateBlock) -> (r: Result<ParsedBlock, MidnightError>)
        ensures
            match r {
                Ok(p) => self.parse_result(block@) == Some(p@),
                Err(e) => self.parse_result(block@) is None && e@ == self.parse_error(block@),
            },
    ;
}

/// A parser that finds no transactions: the parsed block has the raw block's
/// number, hash and timestamp, and no transactions.
pub struct MockParser;

impl ExtrinsicParser for MockParser {
    open spec fn parse_result(&self, block: RawBlockView) -> Option<ParsedBlockView> {
        Some(ParsedBlockView {
            slot: block.number,
            hash: block.hash,
            timestamp: block.timestamp,
            transactions: Seq::empty(),
        })
    }

    /// The mock parser does not fail.
    open spec fn parse_error(&self, block: RawBlockView) -> MidnightErrorView {
        MidnightErrorView::Internal(Seq::empty())
    }

    fn parse_block(&self, block: &RawSubstrateBlock) -> (r: Result<ParsedBlock, MidnightError>) {
        let p = ParsedBlock {
            slot: block.number,
            hash: block.hash,
            timestamp: block.timestamp,
            transactions: Vec::new(),
        };
        assert(p@.transactions =~= Seq::<ParsedTxView>::empty());
        Ok(p)
    }
}

impl ShieldedOutput {
    /// A copy of this output.
    pub fn duplicate(&self) -> (r: Self)
        ensures
            r@ == self@,
    {
        ShieldedOutput {
            output_index: self.output_index,
            ciphertexts: copy_byte_strings(&self.ciphertexts),
            raw_coin: self.raw_coin.clone(),
            ledger_version: self.ledger_version,
        }
    }
}

} // verus!

use dolos_midnight::block_source::RawSubstrateBlock;
use dolos_midnight::chain::{MidnightBlock, MidnightError};
use dolos_midnight::chain_types::{ChainError, ChainPoint, TipEvent};
use dolos_midnight::model::{utxo_entity_key, MidnightEntity, Namespace};
use dolos_midnight::store::{ArchiveStore, EntityStore};
use dolos_midnight::tx_parser::{
    MockParser, ParsedBlock, ParsedTransaction, ShieldedInput, ShieldedOutput, TxType, UnshieldedOutput,
};
use dolos_midnight::work::{RollWorkUnit, WalStore};

fn block(number: u64) -> MidnightBlock {
    MidnightBlock { number, hash: [number as u8; 32], parent_hash: [0; 32], raw_bytes: vec![1, 2, 3, number as u8] }
}

fn tx(hash: u8) -> ParsedTransaction {
    ParsedTransaction {
        tx_hash: [hash; 32],
        tx_type: TxType::Regular,
        shielded_outputs: vec![ShieldedOutput {
            output_index: 0,
            ciphertexts: vec![vec![0xc1]],
            raw_coin: vec![0xc0],
            ledger_version: 8,
        }],
        shielded_inputs: vec![ShieldedInput { nullifier: [0xee; 32] }],
        unshielded_outputs: vec![
            UnshieldedOutput { owner: [1; 32], token_type: [2; 32], value: 50, output_index: 1 },
            UnshieldedOutput { owner: [3; 32], token_type: [2; 32], value: 70, output_index: 2 },
        ],
        unshielded_inputs: vec![],
        raw: vec![],
    }
}

#[test]
fn store_reads_back_writes_and_forgets_deletes() {
    let mut s: EntityStore<MidnightEntity> = EntityStore::new();
    let key = [4u8; 32];
    assert!(s.read(0, &key).is_none());
    let w = RollWorkUnit::new(block(1), MockParser);
    let _ = w;
    s.write(1, &key, MidnightEntity::UnshieldedUtxo(Box::new(dolos_midnight::model::UnshieldedUtxoState {
        owner: [0; 32],
        token_type: [0; 32],
        value: 9,
        intent_hash: [0; 32],
        output_index: 0,
        created_slot: 0,
        created_tx_hash: [0; 32],
        spent_slot: None,
        spent_tx_hash: None,
    })));
    assert!(s.read(0, &key).is_none());
    match s.read(1, &key) {
        Some(MidnightEntity::UnshieldedUtxo(u)) => assert_eq!(u.value, 9),
        _ => panic!("missing"),
    }
    s.delete(1, &key);
    assert!(s.read(1, &key).is_none());
    assert!(s.read_cursor().is_none());
    s.set_cursor(ChainPoint::Slot(5));
    assert!(matches!(s.read_cursor(), Some(ChainPoint::Slot(5))));
}

#[test]
fn archive_keeps_slot_order_and_replaces_same_slot() {
    let mut a = ArchiveStore::new();
    a.apply(5, ChainPoint::Slot(5), vec![1]);
    a.apply(2, ChainPoint::Slot(2), vec![1, 2]);
    a.apply(9, ChainPoint::Slot(9), vec![]);
    a.apply(5, ChainPoint::Slot(5), vec![1, 2, 3]);
    assert_eq!(a.slot_sizes(), vec![(2, 2), (5, 3), (9, 0)]);
}

#[test]
fn load_parses_with_the_parser_and_reports_decode_failures() {
    let mut w = RollWorkUnit::new(block(7), MockParser);
    let raw = RawSubstrateBlock { number: 7, hash: [7; 32], parent_hash: [6; 32], extrinsics: vec![], timestamp: Some(84_000) };
    assert!(w.load(Ok(raw)).is_ok());
    let parsed = w.parsed.as_ref().expect("parsed");
    assert_eq!(parsed.slot, 7);
    assert_eq!(parsed.timestamp, Some(84_000));
    assert!(parsed.transactions.is_empty());

    let mut w2 = RollWorkUnit::new(block(7), MockParser);
    match w2.load(Err("bad bytes".to_string())) {
        Err(ChainError::ChainSpecific(MidnightError::Decode(m))) => assert_eq!(m, "re-decode block: bad bytes"),
        other => panic!("unexpected {:?}", other),
    }
    assert!(w2.parsed.is_none());
}

#[test]
fn compute_creates_one_utxo_per_output_at_the_block_slot() {
    let mut w = RollWorkUnit::new(block(12), MockParser);
    w.parsed = Some(ParsedBlock { slot: 12, hash: [12; 32], timestamp: None, transactions: vec![tx(0xa1), tx(0xa2)] });
    w.compute();
    assert!(w.parsed.is_none());
    assert_eq!(w.deltas.len(), 6);
    // without parsed data nothing is added
    w.compute();
    assert_eq!(w.deltas.len(), 6);

    let mut state: EntityStore<MidnightEntity> = EntityStore::new();
    w.commit_state(&mut state);
    assert!(matches!(state.read_cursor(), Some(ChainPoint::Specific(12, h)) if h == [12; 32]));
    let k = utxo_entity_key(&[0xa2; 32], 2);
    match state.read(1, &k) {
        Some(MidnightEntity::UnshieldedUtxo(u)) => {
            assert_eq!(u.value, 70);
            assert_eq!(u.owner, [3; 32]);
            assert_eq!(u.created_slot, 12);
            assert_eq!(u.created_tx_hash, [0xa2; 32]);
            assert_eq!(u.spent_slot, None);
        }
        _ => panic!("unshielded UTxO missing"),
    }
    let ks = utxo_entity_key(&[0xa1; 32], 0);
    match state.read(0, &ks) {
        Some(MidnightEntity::ShieldedUtxo(s)) => {
            assert_eq!(s.ciphertexts, vec![vec![0xc1]]);
            assert_eq!(s.ledger_version, 8);
        }
        _ => panic!("shielded UTxO missing"),
    }
    for h in [0xa1u8, 0xa2] {
        assert!(state.read(Namespace::ShieldedUtxo.store_tag(), &utxo_entity_key(&[h; 32], 0)).is_some());
        assert!(state.read(Namespace::UnshieldedUtxo.store_tag(), &utxo_entity_key(&[h; 32], 1)).is_some());
        assert!(state.read(Namespace::UnshieldedUtxo.store_tag(), &utxo_entity_key(&[h; 32], 2)).is_some());
        assert!(state.read(Namespace::UnshieldedUtxo.store_tag(), &utxo_entity_key(&[h; 32], 0)).is_none());
    }

    let mut wal = WalStore::new();
    w.commit_wal(&mut wal);
    let mut archive = ArchiveStore::new();
    w.commit_archive(&mut archive);
    assert_eq!(archive.slot_sizes(), vec![(12, 4)]);
    let events = w.tip_events();
    assert_eq!(events.len(), 1);
    match &events[0] {
        TipEvent::Apply(ChainPoint::Specific(12, h), raw) => {
            assert_eq!(*h, [12; 32]);
            assert_eq!(*raw, vec![1, 2, 3, 12]);
        }
        other => panic!("unexpected {:?}", other),
    }
}

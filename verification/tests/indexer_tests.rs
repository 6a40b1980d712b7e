use dolos_midnight::chain_types::ChainPoint;
use dolos_midnight::indexer::api::{list_blocks, list_commitments, list_nullifiers, list_utxos, sort_by_slot_desc, BlockResponse};
use dolos_midnight::indexer::{
    coin_key, concat_extrinsics, delta_report, index_block, utxo_key, IndexNamespace, IndexedEntity, LedgerIntent,
    LedgerOutput, LedgerTransaction, MidnightConfig, MidnightDelta, MidnightDeltaValue, MidnightGenesis,
    MidnightLogic, MidnightWorkUnit, StandardTransaction, UnshieldedUtxo, ZswapCommitment, ZswapNullifier, ZswapOffer,
};
use dolos_midnight::store::{ArchiveStore, EntityStore};

fn sample_tx() -> LedgerTransaction {
    LedgerTransaction::Standard(StandardTransaction {
        intents: vec![LedgerIntent {
            segment_id: 1,
            intent_hash: [0x11; 32],
            guaranteed_outputs: vec![
                LedgerOutput { value: 5, owner: [0xaa; 32] },
                LedgerOutput { value: 6, owner: [0xbb; 32] },
            ],
        }],
        guaranteed_coins: Some(ZswapOffer { output_commitments: vec![[0xc1; 32]], input_nullifiers: vec![[0xd1; 32]] }),
        fallible_coins: vec![ZswapOffer { output_commitments: vec![[0xc2; 32], [0xc3; 32]], input_nullifiers: vec![] }],
    })
}

#[test]
fn key_layouts() {
    let k = utxo_key(&[0x22; 32], 0x0102_0304);
    assert_eq!(&k[..28], &[0x22; 28]);
    assert_eq!(&k[28..], &[1, 2, 3, 4]);
    let c = coin_key(&[0x33; 32], 2, 0x0506);
    assert_eq!(&c[..28], &[0x33; 28]);
    assert_eq!(&c[28..], &[0, 2, 5, 6]);
}

#[test]
fn compute_extracts_utxos_commitments_and_nullifiers_in_order() {
    let mut w = MidnightWorkUnit::new(9, [0x99; 32], vec![]);
    w.compute_async(&vec![sample_tx(), LedgerTransaction::Other]);
    assert_eq!(w.deltas.len(), 6);
    match w.deltas[1].new_value {
        MidnightDeltaValue::UnshieldedUtxo(Some(u)) => {
            assert_eq!(u.output_index, 1);
            assert_eq!(u.amount, 6);
            assert_eq!(u.owner, [0xbb; 32]);
        }
        _ => panic!("expected a UTxO"),
    }
    assert_eq!(&w.deltas[1].key[28..], &[0, 0, 0, 1]);
    assert!(matches!(w.deltas[2].new_value, MidnightDeltaValue::ZswapCommitment(Some(ZswapCommitment { hash })) if hash == [0xc1; 32]));
    assert_eq!(&w.deltas[2].key[28..], &[0, 0, 0, 0]);
    assert!(matches!(w.deltas[3].new_value, MidnightDeltaValue::ZswapNullifier(Some(_))));
    assert_eq!(&w.deltas[3].key[28..], &[0, 0, 0, 0]);
    assert_eq!(&w.deltas[5].key[..28], &[0x99; 28]);
    assert_eq!(&w.deltas[5].key[28..], &[0, 1, 0, 1]);
    assert_eq!(w.name(), "midnight-work-unit");
}

#[test]
fn indexing_a_block_writes_state_and_archive() {
    let mut state: EntityStore<IndexedEntity> = EntityStore::new();
    let mut archive = ArchiveStore::new();
    let w = index_block(&mut state, &mut archive, 4, [0x44; 32], &vec![vec![1, 2], vec![3]], &vec![sample_tx()]);
    assert_eq!(w.raw, vec![1, 2, 3]);
    assert_eq!(archive.slot_sizes(), vec![(4, 3)]);
    let key = utxo_key(&[0x11; 32], 0);
    assert!(matches!(state.read(IndexNamespace::UnshieldedUtxo.store_tag(), &key), Some(IndexedEntity::UnshieldedUtxo(u)) if u.amount == 5));
    let utxos = list_utxos(&state);
    assert_eq!(utxos.len(), 2);
    let first = utxos.iter().find(|u| u.output_index == 0).unwrap();
    assert_eq!(first.amount, "5");
    assert_eq!(first.owner, "aa".repeat(32));
    assert_eq!(first.intent_hash, "11".repeat(32));
    let commitments = list_commitments(&state);
    assert_eq!(commitments.len(), 3);
    assert!(commitments.iter().any(|c| c.hash == "c3".repeat(32)));
    let nullifiers = list_nullifiers(&state);
    assert_eq!(nullifiers.len(), 1);
    assert_eq!(nullifiers[0].hash, "d1".repeat(32));
}

#[test]
fn a_none_value_removes_the_entity() {
    let mut state: EntityStore<IndexedEntity> = EntityStore::new();
    let mut w = MidnightWorkUnit::new(1, [1; 32], vec![]);
    let u = UnshieldedUtxo { intent_hash: [1; 32], output_index: 0, amount: 1, owner: [2; 32] };
    w.deltas.push(MidnightDelta { key: [7; 32], new_value: MidnightDeltaValue::UnshieldedUtxo(Some(u)) });
    w.deltas.push(MidnightDelta { key: [7; 32], new_value: MidnightDeltaValue::UnshieldedUtxo(None) });
    w.commit_state_with_domain(&mut state);
    assert!(state.read(IndexNamespace::UnshieldedUtxo.store_tag(), &[7; 32]).is_none());
}

#[test]
fn blocks_are_listed_latest_first_at_most_a_hundred() {
    let mut archive = ArchiveStore::new();
    for slot in 0..150u64 {
        archive.apply(slot, ChainPoint::Slot(slot), vec![0; (slot % 7) as usize]);
    }
    let blocks = list_blocks(&archive);
    assert_eq!(blocks.len(), 100);
    assert_eq!(blocks[0].slot, 149);
    assert_eq!(blocks[0].size, (149 % 7) as usize);
    assert_eq!(blocks[99].slot, 50);
    let empty = list_blocks(&ArchiveStore::new());
    assert!(empty.is_empty());
}

#[test]
fn sorting_by_slot_descending() {
    let v = vec![
        BlockResponse { slot: 3, size: 1 },
        BlockResponse { slot: 9, size: 2 },
        BlockResponse { slot: 1, size: 3 },
        BlockResponse { slot: 9, size: 4 },
    ];
    let s = sort_by_slot_desc(v);
    let slots: Vec<u64> = s.iter().map(|b| b.slot).collect();
    assert_eq!(slots, vec![9, 9, 3, 1]);
}

#[test]
fn reports_and_fixed_answers() {
    let u = UnshieldedUtxo { intent_hash: [0; 32], output_index: 0, amount: 1234, owner: [0x0f; 32] };
    let d = MidnightDelta { key: [0; 32], new_value: MidnightDeltaValue::UnshieldedUtxo(Some(u)) };
    assert_eq!(
        delta_report(&d).unwrap(),
        format!("  Indexed Unshielded UTXO: owner={}, amount=1234", "0f".repeat(32))
    );
    let gone = MidnightDelta { key: [0; 32], new_value: MidnightDeltaValue::ZswapNullifier(None) };
    assert!(delta_report(&gone).is_none());
    assert_eq!(concat_extrinsics(&vec![vec![], vec![1], vec![2, 3]]), vec![1, 2, 3]);
    let c = MidnightConfig::default();
    assert_eq!(c.rpc_url, "wss://rpc.preprod.midnight.network");
    assert_eq!(c.data_dir, "./data/midnight");
    assert_eq!(MidnightGenesis { chain_id: 3, genesis_hash: [0; 32] }.chain_id(), 3);
    let mut logic = MidnightLogic::initialize();
    assert!(logic.can_receive_block());
    assert!(matches!(logic.receive_block(&[1]), Ok(0)));
    assert!(logic.pop_work().is_none());
    assert_eq!(MidnightLogic::mutable_slots(), 0);
    assert_eq!(IndexNamespace::ZswapCommitment.name(), "zswap_commitment");
}

#[test]
fn listings_follow_key_order() {
    let mut state: EntityStore<IndexedEntity> = EntityStore::new();
    let tag = IndexNamespace::ZswapCommitment.store_tag();
    for k in [3u8, 1, 2] {
        state.write(tag, &[k; 32], IndexedEntity::ZswapCommitment(ZswapCommitment { hash: [k + 0xa0; 32] }));
    }
    let nullifier_tag = IndexNamespace::ZswapNullifier.store_tag();
    state.write(nullifier_tag, &[0x02; 32], IndexedEntity::ZswapNullifier(ZswapNullifier { hash: [0xb2; 32] }));
    state.write(nullifier_tag, &[0x01; 32], IndexedEntity::ZswapNullifier(ZswapNullifier { hash: [0xb1; 32] }));
    let hashes: Vec<String> = list_commitments(&state).into_iter().map(|c| c.hash).collect();
    assert_eq!(hashes, vec!["a1".repeat(32), "a2".repeat(32), "a3".repeat(32)]);
    let nullifiers: Vec<String> = list_nullifiers(&state).into_iter().map(|n| n.hash).collect();
    assert_eq!(nullifiers, vec!["b1".repeat(32), "b2".repeat(32)]);
}

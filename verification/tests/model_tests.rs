use dolos_midnight::model::{
    build_schema, decode_target, utxo_entity_key, CreateShieldedUtxo, CreateUnshieldedUtxo, DecodeError,
    MidnightDelta, MidnightEntity, Namespace, NamespaceType, ShieldedUtxoState, SpendShieldedUtxo,
    SpendUnshieldedUtxo, UnshieldedUtxoState,
};

fn shielded(intent: u8, idx: u32) -> ShieldedUtxoState {
    ShieldedUtxoState {
        intent_hash: [intent; 32],
        output_index: idx,
        ciphertexts: vec![vec![1, 2, 3], vec![4]],
        created_slot: 10,
        created_tx_hash: [intent; 32],
        spent_slot: None,
        spent_tx_hash: None,
        ledger_version: 8,
        raw_coin: vec![9, 9],
    }
}

fn unshielded(intent: u8, idx: u32) -> UnshieldedUtxoState {
    UnshieldedUtxoState {
        owner: [5; 32],
        token_type: [6; 32],
        value: 1_000,
        intent_hash: [intent; 32],
        output_index: idx,
        created_slot: 3,
        created_tx_hash: [intent; 32],
        spent_slot: None,
        spent_tx_hash: None,
    }
}

#[test]
fn entity_key_is_sha256_of_intent_hash_and_big_endian_index() {
    let key = utxo_entity_key(&[1u8; 32], 7);
    assert_eq!(
        key,
        [90, 1, 110, 83, 87, 16, 78, 52, 22, 66, 177, 180, 79, 205, 125, 122, 107, 100, 22, 223, 80, 87, 75,
            164, 76, 28, 0, 178, 235, 46, 54, 184]
    );
    let key2 = utxo_entity_key(&[0xab; 32], 0x0001_0002);
    assert_eq!(
        key2,
        [13, 94, 47, 39, 155, 141, 35, 241, 252, 140, 47, 20, 62, 13, 154, 178, 136, 166, 36, 217, 68, 3, 78, 121,
            231, 39, 218, 133, 87, 80, 10, 67]
    );
}

#[test]
fn spend_is_keyed_where_the_creation_was() {
    let create = MidnightDelta::CreateShieldedUtxo(Box::new(CreateShieldedUtxo { state: shielded(2, 4) }));
    let spend = MidnightDelta::SpendShieldedUtxo(Box::new(SpendShieldedUtxo {
        intent_hash: [2; 32],
        output_index: 4,
        spent_slot: 99,
        spent_tx_hash: [7; 32],
    }));
    let a = create.key();
    let b = spend.key();
    assert_eq!(a.ns, Namespace::ShieldedUtxo);
    assert_eq!(b.ns, Namespace::ShieldedUtxo);
    assert_eq!(a.key, b.key);
    let u = MidnightDelta::CreateUnshieldedUtxo(Box::new(CreateUnshieldedUtxo { state: unshielded(2, 4) }));
    assert_eq!(u.key().ns, Namespace::UnshieldedUtxo);
    assert_eq!(u.key().key, a.key);
}

#[test]
fn create_then_spend_then_undo_restores() {
    let create = MidnightDelta::CreateShieldedUtxo(Box::new(CreateShieldedUtxo { state: shielded(2, 4) }));
    let spend = MidnightDelta::SpendShieldedUtxo(Box::new(SpendShieldedUtxo {
        intent_hash: [2; 32],
        output_index: 4,
        spent_slot: 99,
        spent_tx_hash: [7; 32],
    }));
    let mut entity: Option<MidnightEntity> = None;
    create.apply(&mut entity);
    match &entity {
        Some(MidnightEntity::ShieldedUtxo(s)) => {
            assert_eq!(s.ciphertexts, vec![vec![1, 2, 3], vec![4]]);
            assert_eq!(s.spent_slot, None);
        }
        _ => panic!("expected a shielded UTxO"),
    }
    spend.apply(&mut entity);
    match &entity {
        Some(MidnightEntity::ShieldedUtxo(s)) => {
            assert_eq!(s.spent_slot, Some(99));
            assert_eq!(s.spent_tx_hash, Some([7; 32]));
        }
        _ => panic!("expected a shielded UTxO"),
    }
    spend.undo(&mut entity);
    match &entity {
        Some(MidnightEntity::ShieldedUtxo(s)) => {
            assert_eq!(s.spent_slot, None);
            assert_eq!(s.spent_tx_hash, None);
            assert_eq!(s.raw_coin, vec![9, 9]);
        }
        _ => panic!("expected a shielded UTxO"),
    }
    create.undo(&mut entity);
    assert!(entity.is_none());
}

#[test]
fn spend_of_other_kind_or_missing_entity_changes_nothing() {
    let spend = MidnightDelta::SpendUnshieldedUtxo(Box::new(SpendUnshieldedUtxo {
        intent_hash: [2; 32],
        output_index: 4,
        spent_slot: 1,
        spent_tx_hash: [1; 32],
    }));
    let mut none: Option<MidnightEntity> = None;
    spend.apply(&mut none);
    assert!(none.is_none());
    let mut other = Some(MidnightEntity::ShieldedUtxo(Box::new(shielded(2, 4))));
    spend.apply(&mut other);
    match &other {
        Some(MidnightEntity::ShieldedUtxo(s)) => assert_eq!(s.spent_slot, None),
        _ => panic!("kind changed"),
    }
    let mut mine = Some(MidnightEntity::UnshieldedUtxo(Box::new(unshielded(2, 4))));
    spend.apply(&mut mine);
    match &mine {
        Some(MidnightEntity::UnshieldedUtxo(s)) => {
            assert_eq!(s.spent_slot, Some(1));
            assert_eq!(s.value, 1_000);
        }
        _ => panic!("kind changed"),
    }
}

#[test]
fn applying_twice_is_applying_once() {
    let create = MidnightDelta::CreateUnshieldedUtxo(Box::new(CreateUnshieldedUtxo { state: unshielded(3, 0) }));
    let mut e = None;
    create.apply(&mut e);
    create.apply(&mut e);
    match &e {
        Some(MidnightEntity::UnshieldedUtxo(s)) => assert_eq!(s.output_index, 0),
        _ => panic!("expected unshielded"),
    }
}

#[test]
fn namespaces_and_schema() {
    assert_eq!(Namespace::ShieldedUtxo.name(), "mn_shielded_utxo");
    assert_eq!(Namespace::UnshieldedUtxo.name(), "mn_unshielded_utxo");
    let schema = build_schema();
    assert_eq!(
        schema.namespaces,
        vec![
            (Namespace::ShieldedUtxo, NamespaceType::KeyValue),
            (Namespace::UnshieldedUtxo, NamespaceType::KeyValue)
        ]
    );
    assert_eq!(Namespace::from_name("mn_unshielded_utxo"), Some(Namespace::UnshieldedUtxo));
    assert_eq!(Namespace::from_name("other"), None);
}

#[test]
fn decoding_refuses_unknown_namespaces() {
    assert!(matches!(decode_target("mn_shielded_utxo"), Ok(Namespace::ShieldedUtxo)));
    match decode_target("utxo") {
        Err(DecodeError::InvalidNamespace(n)) => assert_eq!(n, "utxo"),
        other => panic!("unexpected {:?}", other),
    }
    let e = MidnightEntity::UnshieldedUtxo(Box::new(unshielded(1, 1)));
    assert_eq!(e.namespace(), Namespace::UnshieldedUtxo);
}

use dolos_midnight::block_source::RawSubstrateBlock;
use dolos_midnight::chain::{MidnightChainConfig, MidnightError, MidnightLogic, MidnightWorkBuffer};
use dolos_midnight::chain_types::{ChainError, ChainPoint};
use dolos_midnight::model::MidnightEntity;
use dolos_midnight::store::EntityStore;
use dolos_midnight::tx_parser::MockParser;
use dolos_midnight::work::MidnightWorkUnit;

fn raw_block(n: u64) -> RawSubstrateBlock {
    RawSubstrateBlock { number: n, hash: [n as u8; 32], parent_hash: [0; 32], extrinsics: vec![vec![1]], timestamp: None }
}

#[test]
fn fresh_state_starts_empty_and_cursor_starts_synced() {
    let state: EntityStore<MidnightEntity> = EntityStore::new();
    let logic = MidnightLogic::initialize(MidnightChainConfig, &state);
    assert!(matches!(logic.work_buffer, MidnightWorkBuffer::Empty));
    let mut state2: EntityStore<MidnightEntity> = EntityStore::new();
    state2.set_cursor(ChainPoint::Specific(4, [4; 32]));
    let logic2 = MidnightLogic::initialize(MidnightChainConfig, &state2);
    assert!(matches!(logic2.work_buffer, MidnightWorkBuffer::Synced(ChainPoint::Specific(4, _))));
}

#[test]
fn receive_then_pop_hands_out_the_block() {
    let state: EntityStore<MidnightEntity> = EntityStore::new();
    let mut logic = MidnightLogic::initialize(MidnightChainConfig, &state);
    assert!(logic.can_receive_block());
    assert!(matches!(logic.receive_block(vec![9, 9], Ok(raw_block(3))), Ok(3)));
    assert!(!logic.can_receive_block());
    match logic.receive_block(vec![8], Ok(raw_block(4))) {
        Err(ChainError::CantReceiveBlock(b)) => assert_eq!(b, vec![8]),
        other => panic!("unexpected {:?}", other),
    }
    match logic.pop_work(MockParser) {
        Some(MidnightWorkUnit::Roll(w)) => {
            assert_eq!(w.block.number, 3);
            assert_eq!(w.block.raw_bytes, vec![9, 9]);
            assert!(w.deltas.is_empty());
        }
        None => panic!("no work"),
    }
    assert!(matches!(logic.work_buffer, MidnightWorkBuffer::Synced(ChainPoint::Specific(3, h)) if h == [3; 32]));
    assert!(logic.can_receive_block());
    // asking again keeps the synced point
    assert!(logic.pop_work(MockParser).is_none());
    assert!(matches!(logic.work_buffer, MidnightWorkBuffer::Synced(ChainPoint::Specific(3, h)) if h == [3; 32]));
    // before any block, asking leaves the logic empty
    let mut fresh = MidnightLogic::initialize(MidnightChainConfig, &state);
    assert!(fresh.pop_work(MockParser).is_none());
    assert!(matches!(fresh.work_buffer, MidnightWorkBuffer::Empty));
}

#[test]
fn undecodable_block_is_refused() {
    let state: EntityStore<MidnightEntity> = EntityStore::new();
    let mut logic = MidnightLogic::initialize(MidnightChainConfig, &state);
    match logic.receive_block(vec![0], Err("eof".to_string())) {
        Err(ChainError::ChainSpecific(MidnightError::Decode(m))) => {
            assert_eq!(m, "failed to deserialize substrate block: eof")
        }
        other => panic!("unexpected {:?}", other),
    }
    assert!(logic.can_receive_block());
}

#[test]
fn fixed_answers_of_the_chain_logic() {
    let state: EntityStore<MidnightEntity> = EntityStore::new();
    let logic = MidnightLogic::initialize(MidnightChainConfig, &state);
    assert_eq!(MidnightLogic::mutable_slots(), 100);
    match logic.validate_tx(&[1, 2]) {
        Err(ChainError::ChainSpecific(MidnightError::Internal(m))) => {
            assert_eq!(m, "tx validation not supported in midnight PoC")
        }
        other => panic!("unexpected {:?}", other),
    }
    assert!(matches!(MidnightLogic::find_tx_in_block(&[], &[]), Ok(None)));
    let undo = MidnightLogic::compute_undo(ChainPoint::Slot(8));
    assert!(matches!(undo.index_cursor, Some(ChainPoint::Slot(8))));
    assert!(undo.tx_hashes.is_empty());
    assert!(MidnightLogic::tx_produced_utxos(&[]).is_empty());
    assert!(MidnightLogic::tx_consumed_ref(&[]).is_empty());
}

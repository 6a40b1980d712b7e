use dolos_midnight::api::{default_include_spent, get_status, query_shielded_utxos, query_unshielded_utxos, tip_slot, ShieldedUtxoRequest, UnshieldedQuery};
use dolos_midnight::cardano_validate::{check_phase2, network_id, ExUnits, NetworkId, RedeemerTag, SerializableEvalResult};
use dolos_midnight::chain_types::ChainPoint;
use dolos_midnight::cli::midnight::{default_config_path, init_action, InitAction};
use dolos_midnight::cli::midnight_sync::default_rpc_url;
use dolos_midnight::config::MidnightConfig;
use dolos_midnight::decrypt::{is_native_token, MockDecryptor, RealDecryptor, UtxoDecryptor};
use dolos_midnight::domain::{should_notify_tip, MempoolTx, MempoolTxStage, StubMempool};
use dolos_midnight::hacks::{outcome, pointer_to_cred, Hacks, Pointer, PointerHack, ProposalHack, ProposalOutcome, ProposalOutcomeHack, StakeCredential};
use dolos_midnight::model::{MidnightEntity, ShieldedUtxoState};
use dolos_midnight::pull::{block_from, finalized_head_from, poll_interval_secs, rpc_reply_status, PollDecision, Stage, WorkerError};
use dolos_midnight::cli::tui::{tui_step, TuiKey, TuiStep};
use dolos_midnight::store::EntityStore;

const CRED: &str = "00112233445566778899aabbccddeeff00112233445566778899aabb";

fn hacks() -> Hacks {
    Hacks {
        pointers: vec![
            PointerHack { slot: 1, tx_idx: 2, cert_idx: 3, credential: "zz".to_string() },
            PointerHack { slot: 4, tx_idx: 5, cert_idx: 6, credential: CRED.to_string() },
            PointerHack { slot: 4, tx_idx: 5, cert_idx: 6, credential: "ff".repeat(28) },
        ],
        proposals: vec![
            ProposalHack { id: "aa".to_string(), outcome: ProposalOutcomeHack::Ratified, epoch: 10 },
            ProposalHack { id: "bb".to_string(), outcome: ProposalOutcomeHack::Canceled, epoch: 11 },
            ProposalHack { id: "aa".to_string(), outcome: ProposalOutcomeHack::Canceled, epoch: 12 },
        ],
    }
}

#[test]
fn pointer_quirks_use_the_first_match() {
    let h = hacks();
    match pointer_to_cred(&h, &Pointer { slot: 4, tx_idx: 5, cert_idx: 6 }) {
        Some(StakeCredential::AddrKeyhash(k)) => {
            assert_eq!(k[0], 0x00);
            assert_eq!(k[1], 0x11);
            assert_eq!(k[27], 0xbb);
        }
        other => panic!("unexpected {:?}", other),
    }
    assert!(pointer_to_cred(&h, &Pointer { slot: 1, tx_idx: 2, cert_idx: 3 }).is_none());
    assert!(pointer_to_cred(&h, &Pointer { slot: 9, tx_idx: 9, cert_idx: 9 }).is_none());
    assert!(pointer_to_cred(&Hacks::default(), &Pointer { slot: 4, tx_idx: 5, cert_idx: 6 }).is_none());
}

#[test]
fn proposal_quirks_fix_the_outcome() {
    let h = hacks();
    assert!(matches!(outcome(&h, 9, "aa"), ProposalOutcome::Ratified(10)));
    assert!(matches!(outcome(&h, 9, "bb"), ProposalOutcome::Canceled(11)));
    assert!(matches!(outcome(&h, 9, "cc"), ProposalOutcome::Unknown));
}

#[test]
fn network_names() {
    assert_eq!(network_id(Some("Mainnet")), Some(NetworkId::Mainnet));
    assert_eq!(network_id(Some("Testnet")), Some(NetworkId::Testnet));
    assert_eq!(network_id(Some("mainnet")), None);
    assert_eq!(network_id(None), None);
}

fn eval(success: bool, log: &str) -> SerializableEvalResult {
    SerializableEvalResult { tag: RedeemerTag::Spend, index: 0, units: ExUnits { mem: 1, steps: 2 }, success, logs: vec![log.to_string()] }
}

#[test]
fn phase_two_rejects_with_the_first_failure_logs() {
    assert!(check_phase2(&vec![]).is_ok());
    assert!(check_phase2(&vec![eval(true, "a")]).is_ok());
    assert_eq!(check_phase2(&vec![eval(true, "a"), eval(false, "b"), eval(false, "c")]), Err(vec!["b".to_string()]));
}

#[test]
fn api_reports_the_cursor() {
    let mut state: EntityStore<MidnightEntity> = EntityStore::new();
    let s = get_status(&state);
    assert_eq!(s.tip_slot, None);
    assert_eq!(s.tip_hash, None);
    let req = ShieldedUtxoRequest { viewing_key: "00".repeat(32), from_slot: None, to_slot: None, include_spent: default_include_spent() };
    assert!(req.include_spent);
    assert_eq!(query_shielded_utxos(&state, &req).tip_slot, None);
    state.set_cursor(ChainPoint::Specific(77, [0xab; 32]));
    let s = get_status(&state);
    assert_eq!(s.tip_slot, Some(77));
    assert_eq!(s.tip_hash, Some("ab".repeat(32)));
    let r = query_unshielded_utxos(&state, &UnshieldedQuery { owner: None });
    assert_eq!(r.tip_slot, Some(77));
    assert!(r.utxos.is_empty());
    assert_eq!(tip_slot(Some(ChainPoint::Slot(5))), Some(0));
    assert_eq!(tip_slot(Some(ChainPoint::Origin)), Some(0));
}

#[test]
fn decryptors() {
    let utxo = ShieldedUtxoState {
        intent_hash: [0; 32],
        output_index: 0,
        ciphertexts: vec![vec![1, 2, 3]],
        created_slot: 0,
        created_tx_hash: [0; 32],
        spent_slot: None,
        spent_tx_hash: None,
        ledger_version: 8,
        raw_coin: vec![],
    };
    assert!(!MockDecryptor.can_decrypt(&[0; 32], &utxo));
    assert!(MockDecryptor.decrypt_info(&[0; 32], &utxo).is_none());
    // garbage ciphertexts decrypt to nothing, with any key
    assert!(RealDecryptor.decrypt_info(&[0; 32], &utxo).is_none());
    assert!(!RealDecryptor.can_decrypt(&[0xff; 32], &utxo));
    assert_eq!(RealDecryptor::try_decrypt_ciphertexts(&[1; 32], &vec![]), None);
}

#[test]
fn stub_mempool_takes_nothing() {
    let m = StubMempool;
    assert!(m.receive(MempoolTx { hash: [0; 32], payload: vec![] }).is_err());
    assert!(!m.has_pending());
    assert!(m.peek_pending().is_empty());
    assert!(m.find_inflight(&[0; 32]).is_none());
    assert!(m.mark_inflight(&[[1; 32]]).is_ok());
    assert!(m.mark_acknowledged(&[[1; 32]]).is_ok());
    assert!(m.peek_inflight().is_empty());
    assert!(m.confirm(&ChainPoint::Slot(3), &[[1; 32]], &[], 10, 20).is_ok());
    assert_eq!(m.check_status(&[0; 32]).stage, MempoolTxStage::Unknown);
    let page = m.dump_finalized(0, 10);
    assert!(page.items.is_empty());
    assert_eq!(page.next_cursor, None);
    let mut s = m.subscribe();
    assert!(s.poll_next().is_none());
    assert!(!should_notify_tip(0));
    assert!(should_notify_tip(2));
}

#[test]
fn pull_stage_skips_the_head_it_already_emitted() {
    let mut st = Stage::new("http://localhost:9944".to_string());
    assert_eq!(st.on_finalized_head("0xabc"), PollDecision::Fetch);
    st.on_block_emitted("0xabc".to_string(), 10);
    assert_eq!(st.block_count, 1);
    assert_eq!(st.on_finalized_head("0xabc"), PollDecision::AlreadySeen);
    assert_eq!(st.on_finalized_head("0xdef"), PollDecision::Fetch);
    assert_eq!(rpc_reply_status(false, false), Err(WorkerError::Panic));
    assert_eq!(rpc_reply_status(true, true), Err(WorkerError::Retry));
    assert_eq!(rpc_reply_status(true, false), Ok(()));
    assert_eq!(poll_interval_secs(), 6);
}

#[test]
fn configuration_defaults() {
    let c = MidnightConfig::default();
    assert_eq!(c.node.ws_url, "ws://localhost:9944");
    assert_eq!(c.storage.path, "./midnight-data");
    assert_eq!(c.api.listen_ip, [0, 0, 0, 0]);
    assert_eq!(c.api.listen_port, 3001);
    assert_eq!(default_config_path(), "dolos-midnight.toml");
    assert_eq!(default_rpc_url(), "http://localhost:9944");
    assert_eq!(init_action(true), InitAction::KeepExisting);
    assert_eq!(init_action(false), InitAction::WriteDefault);
}

#[test]
fn pull_replies_are_read_or_given_up() {
    assert_eq!(finalized_head_from(Some("0x12ab".to_string())), Ok("0x12ab".to_string()));
    assert_eq!(finalized_head_from(None), Err(WorkerError::Panic));
    assert_eq!(block_from::<u32>(true, None), Ok(None));
    assert_eq!(block_from::<u32>(true, Some(7)), Ok(None));
    assert_eq!(block_from::<u32>(false, Some(7)), Ok(Some(7)));
    assert_eq!(block_from::<u32>(false, None), Err(WorkerError::Panic));
}

#[test]
fn terminal_ui_quits_on_q_or_escape() {
    assert_eq!(tui_step(Some(TuiKey::Char('q')), false), TuiStep::CancelAndStop);
    assert_eq!(tui_step(Some(TuiKey::Esc), true), TuiStep::CancelAndStop);
    assert_eq!(tui_step(Some(TuiKey::Char('x')), false), TuiStep::Continue);
    assert_eq!(tui_step(Some(TuiKey::Other), true), TuiStep::Stop);
    assert_eq!(tui_step(None, false), TuiStep::Continue);
    assert_eq!(tui_step(None, true), TuiStep::Stop);
}

#[test]
fn pull_stage_catches_up_block_by_block() {
    let mut st = Stage::new("http://localhost:9944".to_string());
    // the first poll emits the head itself
    assert_eq!(st.next_height(10), Some(10));
    st.on_block_emitted("0x0a".to_string(), 10);
    assert_eq!(st.next_height(10), None);
    // three blocks were finalized before the next poll: all are emitted, in order
    let mut emitted = Vec::new();
    while let Some(h) = st.next_height(13) {
        emitted.push(h);
        st.on_block_emitted(format!("0x{h:x}"), h);
    }
    assert_eq!(emitted, vec![11, 12, 13]);
    assert_eq!(st.last_seen_number, Some(13));
    assert_eq!(st.block_count, 4);
}

#[test]
fn only_the_all_zero_token_id_is_native() {
    assert!(is_native_token(&[0; 32]));
    let mut id = [0u8; 32];
    id[31] = 1;
    assert!(!is_native_token(&id));
    assert!(!is_native_token(&[0xab; 32]));
}

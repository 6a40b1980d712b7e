use dolos_midnight::block_source::{
    backfill_milestone, start_block, FinalizedFollower, FollowAction, LiveEvent, MockBlockSource, SubxtBlockSource,
    SyncError,
};
use dolos_midnight::chain_types::ChainPoint;
use dolos_midnight::sync_loop::{resume_block, SyncProgress, SyncStep};

#[test]
fn mock_blocks_chain_by_parent_hash() {
    let src = MockBlockSource;
    let b0 = src.fetch_block(0).unwrap();
    let b1 = src.fetch_block(1).unwrap();
    let b258 = src.fetch_block(258).unwrap();
    assert_eq!(b0.parent_hash, [0; 32]);
    assert_eq!(b1.parent_hash, b0.hash);
    assert_eq!(&b258.hash[..8], &258u64.to_le_bytes());
    assert_eq!(&b258.hash[8..], &[0u8; 24]);
    assert_eq!(b258.parent_hash, src.fetch_block(257).unwrap().hash);
    assert_eq!(b258.timestamp, Some(258 * 12_000));
    assert!(b258.extrinsics.is_empty());
}

#[test]
fn subscription_start_and_backfill_milestones() {
    assert_eq!(start_block(Some(10), 50), 10);
    assert_eq!(start_block(None, 50), 50);
    assert!(backfill_milestone(3000));
    assert!(!backfill_milestone(3001));
    let s = SubxtBlockSource::new("ws://node:9944".to_string());
    assert_eq!(s.ws_url, "ws://node:9944");
}

#[test]
fn follower_skips_duplicates_and_handles_errors() {
    let mut f = FinalizedFollower::after_backfill(40, 100);
    assert!(matches!(f.on_event(LiveEvent::Block(100)), FollowAction::SkipDuplicate(100)));
    assert!(matches!(f.on_event(LiveEvent::Block(99)), FollowAction::SkipDuplicate(99)));
    assert!(matches!(f.on_event(LiveEvent::Block(101)), FollowAction::Yield(101)));
    assert_eq!(f.last_height, Some(101));
    assert!(matches!(f.on_event(LiveEvent::Block(101)), FollowAction::SkipDuplicate(101)));
    assert!(matches!(f.on_event(LiveEvent::Block(105)), FollowAction::Yield(105)));
    assert!(matches!(
        f.on_event(LiveEvent::StreamError("rpc: DisconnectedWillReconnect".to_string())),
        FollowAction::AwaitReconnect
    ));
    match f.on_event(LiveEvent::StreamError("boom".to_string())) {
        FollowAction::Fail(SyncError::Connection(m)) => assert_eq!(m, "boom"),
        other => panic!("unexpected {:?}", other),
    }
    assert!(matches!(f.on_event(LiveEvent::Closed), FollowAction::Fail(SyncError::SubscriptionEnded)));
    assert!(matches!(f.on_event(LiveEvent::TimedOut), FollowAction::Resubscribe));
    assert_eq!(f.last_height, Some(105));
}

#[test]
fn resume_after_the_stored_cursor() {
    assert_eq!(resume_block(None), None);
    assert_eq!(resume_block(Some(ChainPoint::Origin)), Some(0));
    assert_eq!(resume_block(Some(ChainPoint::Slot(41))), Some(42));
    assert_eq!(resume_block(Some(ChainPoint::Specific(7, [0; 32]))), Some(8));
}

#[test]
fn sync_progress_reports_every_hundred_blocks_and_stops_on_failure() {
    let mut p = SyncProgress::new();
    for i in 1..=99u64 {
        match p.on_block(0, Ok(())) {
            SyncStep::Continue { report_txs, report_progress } => {
                assert!(!report_txs);
                assert!(!report_progress, "at {}", i);
            }
            SyncStep::Stop(_) => panic!("stopped"),
        }
    }
    assert!(matches!(p.on_block(2, Ok(())), SyncStep::Continue { report_txs: true, report_progress: true }));
    assert_eq!(p.blocks_processed, 100);
    match p.on_block(0, Err("disk full".to_string())) {
        SyncStep::Stop(SyncError::Decode(m)) => assert_eq!(m, "block processing failed: disk full"),
        _ => panic!("should stop"),
    }
    assert_eq!(p.blocks_processed, 100);
}

#[test]
fn live_following_starts_at_the_requested_block() {
    // asked to start past the tip: nothing below the start is yielded
    let mut f = FinalizedFollower::after_backfill(120, 100);
    assert_eq!(f.last_height, Some(119));
    assert!(matches!(f.on_event(LiveEvent::Block(110)), FollowAction::SkipDuplicate(110)));
    assert!(matches!(f.on_event(LiveEvent::Block(120)), FollowAction::Yield(120)));
    assert_eq!(FinalizedFollower::after_backfill(0, 0).last_height, Some(0));
    assert_eq!(FinalizedFollower::after_backfill(101, 100).last_height, Some(100));
}

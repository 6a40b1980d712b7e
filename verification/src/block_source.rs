//! Raw Substrate blocks as the node receives them, and the decisions of the
//! block sources that produce them.

use vstd::prelude::*;
use crate::text::{contains_seq, str_contains};

verus! {

/// A raw Substrate block: its number, hash, parent, encoded extrinsics and
/// timestamp.
#[derive(Debug)]
pub struct RawSubstrateBlock {
    pub number: u64,
    pub hash: [u8; 32],
    pub parent_hash: [u8; 32],
    pub extrinsics: Vec<Vec<u8>>,
    pub timestamp: Option<u64>,
}

/// The value of a raw block.
pub struct RawBlockView {
    pub number: u64,
    pub hash: [u8; 32],
    pub parent_hash: [u8; 32],
    pub extrinsics: Seq<Seq<u8>>,
    pub timestamp: Option<u64>,
}

impl View for RawSubstrateBlock {
    type V = RawBlockView;

    open spec fn view(&self) -> RawBlockView {
        RawBlockView {
            number: self.number,
            hash: self.hash,
            parent_hash: self.parent_hash,
            extrinsics: self.extrinsics@.map_values(|e: Vec<u8>| e@),
            timestamp: self.timestamp,
        }
    }
}

impl RawSubstrateBlock {
    /// A copy of this block.
    pub fn duplicate(&self) -> (r: Self)
        ensures
            r@ == self@,
    {
        RawSubstrateBlock {
            number: self.number,
            hash: self.hash,
            parent_hash: self.parent_hash,
            extrinsics: crate::model::copy_byte_strings(&self.extrinsics),
            timestamp: self.timestamp,
        }
    }
}

/// Why a block source failed.
#[derive(Debug)]
pub enum SyncError {
    Connection(String),
    Decode(String),
    SubscriptionEnded,
    BlockNotFound(u64),
}

/// `x` as eight little-endian bytes.
pub open spec fn le64(x: u64) -> Seq<u8> {
    Seq::new(8, |i: int| ((x as int / pow256(i)) % 256) as u8)
}

/// 256 to the power `i`.
pub open spec fn pow256(i: int) -> int
    decreases i,
{
    if i <= 0 { 1 } else { 256 * pow256(i - 1) }
}

/// The 32-byte hash that the mock source gives block `n`: its number in
/// little-endian order, then zeros.
pub open spec fn mock_hash(n: u64) -> Seq<u8> {
    le64(n) + Seq::new(24, |i: int| 0u8)
}

/// The mock source's parent hash of block `n`: the hash of block `n - 1`,
/// and all zeros for block 0.
pub open spec fn mock_parent_hash(n: u64) -> Seq<u8> {
    if n == 0 { Seq::new(32, |i: int| 0u8) } else { mock_hash((n - 1) as u64) }
}

/// Writes `x` little-endian into the first eight bytes of a zeroed hash.
fn le64_hash(x: u64) -> (h: [u8; 32])
    ensures
        h@ == mock_hash(x),
{
    let mut h = [0u8; 32];
    let mut rest: u64 = x;
    let mut i: usize = 0;
    while i < 8
        invariant
            i <= 8,
            h@.len() == 32,
            rest as int == x as int / pow256(i as int),
            forall|j: int| 0 <= j < i ==> h@[j] == ((x as int / pow256(j)) % 256) as u8,
            forall|j: int| 8 <= j < 32 ==> h@[j] == 0u8,
        decreases 8 - i,
    {
        h[i] = (rest % 256) as u8;
        proof {
            assert(pow256(i + 1) == 256 * pow256(i as int));
            assert(pow256(i as int) > 0) by {
                lemma_pow256_pos(i as int);
            }
            vstd::arithmetic::div_mod::lemma_div_denominator(x as int, pow256(i as int), 256);
        }
        rest = rest / 256;
        i = i + 1;
    }
    assert(h@ =~= mock_hash(x));
    h
}

proof fn lemma_pow256_pos(i: int)
    ensures
        pow256(i) > 0,
    decreases i,
{
    if i > 0 {
        lemma_pow256_pos(i - 1);
    }
}

/// A block source with no live blocks, which makes up any block asked for.
pub struct MockBlockSource;

impl MockBlockSource {
    /// The made-up block `number`: hash and parent hash as the mock source
    /// numbers them, no extrinsics, and a timestamp of `number * 12000`.
    pub fn fetch_block(&self, number: u64) -> (r: Result<RawSubstrateBlock, SyncError>)
        requires
            number <= u64::MAX / 12_000,
        ensures
            r matches Ok(b) && b.number == number && b.hash@ == mock_hash(number)
                && b.parent_hash@ == mock_parent_hash(number) && b.extrinsics@.len() == 0
                && b.timestamp == Some((number * 12_000) as u64),
    {
        let hash = le64_hash(number);
        let parent_hash = if number > 0 {
            le64_hash(number - 1)
        } else {
            let z = [0u8; 32];
            assert(z@ =~= Seq::new(32, |i: int| 0u8));
            z
        };
        Ok(RawSubstrateBlock {
            number,
            hash,
            parent_hash,
            extrinsics: Vec::new(),
            timestamp: Some(number * 12_000),
        })
    }
}

/// The mock source chains its blocks: the parent hash of block `n + 1` is
/// the hash of block `n`.
pub proof fn lemma_mock_blocks_chain(n: u64)
    requires
        n < u64::MAX,
    ensures
        mock_parent_hash((n + 1) as u64) == mock_hash(n),
{
}

/// A block source that follows a Midnight node over WebSocket.
pub struct SubxtBlockSource {
    pub ws_url: String,
}

impl SubxtBlockSource {
    /// A source for the node at `ws_url`.
    pub fn new(ws_url: String) -> (s: Self)
        ensures
            s.ws_url@ == ws_url@,
    {
        SubxtBlockSource { ws_url }
    }
}

/// Where a subscription to finalized blocks starts: at `from_block` when
/// given, else at the current finalized tip.
pub open spec fn spec_start_block(from_block: Option<u64>, tip: u64) -> u64 {
    match from_block {
        Some(n) => n,
        None => tip,
    }
}

/// The blocks a subscription fetches one by one before it follows live
/// blocks: `start` through `tip`, none when `start` is past the tip.
pub open spec fn backfill_blocks(start: u64, tip: u64) -> Seq<u64> {
    if start <= tip {
        Seq::new((tip - start + 1) as nat, |i: int| (start + i) as u64)
    } else {
        Seq::empty()
    }
}

/// Where a subscription starts.
pub fn start_block(from_block: Option<u64>, tip: u64) -> (r: u64)
    ensures
        r == spec_start_block(from_block, tip),
{
    match from_block {
        Some(n) => n,
        None => tip,
    }
}

/// Whether fetching block `num` during backfill is a progress milestone
/// (every thousandth block).
pub fn backfill_milestone(num: u64) -> (r: bool)
    ensures
        r == (num % 1000 == 0),
{
    num % 1000 == 0
}

/// What the live subscription delivered.
#[derive(Debug)]
pub enum LiveEvent {
    /// A finalized block of this height.
    Block(u64),
    /// The subscription reported an error with this message.
    StreamError(String),
    /// The subscription ended.
    Closed,
    /// Nothing arrived within the recovery timeout.
    TimedOut,
}

/// What to do about a live event.
#[derive(Debug)]
pub enum FollowAction {
    /// Yield the block of this height.
    Yield(u64),
    /// Skip a block at or below the last height yielded (seen after a reconnect).
    SkipDuplicate(u64),
    /// The node disconnected and the client reconnects by itself: wait.
    AwaitReconnect,
    /// The subscription is stuck: subscribe again.
    Resubscribe,
    /// End the stream with this error.
    Fail(SyncError),
}

/// Whether a block of height `h` was already covered by `last`.
pub open spec fn already_seen(h: u64, last: Option<u64>) -> bool {
    match last {
        Some(l) => h <= l,
        None => false,
    }
}

/// The last height after a live block of height `h`.
pub open spec fn next_last(h: u64, last: Option<u64>) -> Option<u64> {
    if already_seen(h, last) { last } else { Some(h) }
}

/// The message by which the client reports a disconnect it recovers from.
pub open spec fn reconnect_marker() -> Seq<char> {
    "DisconnectedWillReconnect"@
}

/// The last height that counts as covered when live following begins after
/// a backfill from `start` through `tip`: the tip, or the block just below
/// `start` when the subscription starts past the tip.
pub open spec fn live_floor(start: u64, tip: u64) -> u64 {
    if start > tip { (start - 1) as u64 } else { tip }
}

/// The heights a subscription from `from_block` yields when the tip is `tip`
/// and live blocks of heights `hs` then arrive: the backfill, then the live
/// blocks that the follower yields.
pub open spec fn subscription_heights(from_block: Option<u64>, tip: u64, hs: Seq<u64>) -> Seq<u64> {
    let start = spec_start_block(from_block, tip);
    backfill_blocks(start, tip) + follow_heights(Some(live_floor(start, tip)), hs).1
}

/// The follower of live finalized blocks: it remembers the last height yielded.
pub struct FinalizedFollower {
    pub last_height: Option<u64>,
}

impl FinalizedFollower {
    /// The follower once backfill from `start` has yielded everything
    /// through `tip`: live blocks are taken from above the tip, and never
    /// below the block the subscription was asked to start at.
    pub fn after_backfill(start: u64, tip: u64) -> (f: Self)
        ensures
            f.last_height == Some(live_floor(start, tip)),
    {
        if start > tip {
            FinalizedFollower { last_height: Some(start - 1) }
        } else {
            FinalizedFollower { last_height: Some(tip) }
        }
    }

    /// Decides what to do about a live event: yield a block above the last
    /// height (and remember it), skip one at or below it, wait out a
    /// disconnect that the client recovers from, fail on any other error or
    /// when the subscription ends, and subscribe again after a timeout.
    pub fn on_event(&mut self, event: LiveEvent) -> (a: FollowAction)
        ensures
            match event {
                LiveEvent::Block(h) => final(self).last_height == next_last(h, old(self).last_height)
                    && if already_seen(h, old(self).last_height) {
                        a matches FollowAction::SkipDuplicate(x) && x == h
                    } else {
                        a matches FollowAction::Yield(x) && x == h
                    },
                LiveEvent::StreamError(msg) => final(self).last_height == old(self).last_height
                    && if contains_seq(msg@, reconnect_marker()) {
                        a is AwaitReconnect
                    } else {
                        a matches FollowAction::Fail(SyncError::Connection(m)) && m@ == msg@
                    },
                LiveEvent::Closed => final(self).last_height == old(self).last_height
                    && (a matches FollowAction::Fail(SyncError::SubscriptionEnded)),
                LiveEvent::TimedOut => final(self).last_height == old(self).last_height
                    && a is Resubscribe,
            },
    {
        match event {
            LiveEvent::Block(h) => {
                let seen = match self.last_height {
                    Some(l) => h <= l,
                    None => false,
                };
                if seen {
                    FollowAction::SkipDuplicate(h)
                } else {
                    self.last_height = Some(h);
                    FollowAction::Yield(h)
                }
            },
            LiveEvent::StreamError(msg) => {
                proof { reveal_strlit("DisconnectedWillReconnect"); }
                if str_contains(msg.as_str(), "DisconnectedWillReconnect") {
                    FollowAction::AwaitReconnect
                } else {
                    FollowAction::Fail(SyncError::Connection(msg))
                }
            },
            LiveEvent::Closed => FollowAction::Fail(SyncError::SubscriptionEnded),
            LiveEvent::TimedOut => FollowAction::Resubscribe,
        }
    }
}

/// The heights yielded when live blocks of heights `hs` arrive after `last`,
/// and the last height afterwards.
pub open spec fn follow_heights(last: Option<u64>, hs: Seq<u64>) -> (Option<u64>, Seq<u64>)
    decreases hs.len(),
{
    if hs.len() == 0 {
        (last, Seq::empty())
    } else {
        let (l, ys) = follow_heights(last, hs.drop_last());
        let h = hs.last();
        if already_seen(h, l) { (l, ys) } else { (Some(h), ys.push(h)) }
    }
}

/// The follower never yields a block twice, nor one below a block it
/// already yielded: whatever heights arrive, those yielded are strictly
/// increasing, all above the height it started from, and the last one
/// yielded is the height it remembers.
pub proof fn lemma_follow_strictly_increasing(last: Option<u64>, hs: Seq<u64>)
    ensures
        ({
            let (l, ys) = follow_heights(last, hs);
            &&& forall|i: int, j: int| 0 <= i < j < ys.len() ==> ys[i] < ys[j]
            &&& forall|i: int| 0 <= i < ys.len() ==> !already_seen(#[trigger] ys[i], last)
            &&& ys.len() > 0 ==> l == Some(ys.last())
            &&& ys.len() == 0 ==> l == last
        }),
    decreases hs.len(),
{
    if hs.len() > 0 {
        lemma_follow_strictly_increasing(last, hs.drop_last());
    }
}

/// A subscription yields no block below the one it was asked to start at,
/// and yields its blocks in strictly increasing order, through the backfill
/// and on into live following.
pub proof fn lemma_subscription_from_start(from_block: Option<u64>, tip: u64, hs: Seq<u64>)
    ensures
        ({
            let ys = subscription_heights(from_block, tip, hs);
            &&& forall|i: int| 0 <= i < ys.len() ==> #[trigger] ys[i] >= spec_start_block(from_block, tip)
            &&& forall|i: int, j: int| 0 <= i < j < ys.len() ==> #[trigger] ys[i] < #[trigger] ys[j]
        }),
{
    let start = spec_start_block(from_block, tip);
    let floor = live_floor(start, tip);
    let bs = backfill_blocks(start, tip);
    let ls = follow_heights(Some(floor), hs).1;
    lemma_follow_strictly_increasing(Some(floor), hs);
    let ys = bs + ls;
    assert forall|i: int| 0 <= i < ys.len() implies #[trigger] ys[i] >= start by {
        if i < bs.len() {
            assert(ys[i] == bs[i]);
        } else {
            assert(ys[i] == ls[i - bs.len()]);
            assert(!already_seen(ls[i - bs.len()], Some(floor)));
        }
    }
    assert forall|i: int, j: int| 0 <= i < j < ys.len() implies #[trigger] ys[i] < #[trigger] ys[j] by {
        if j < bs.len() {
            assert(ys[i] == bs[i] && ys[j] == bs[j]);
        } else if i < bs.len() {
            assert(ys[i] == bs[i]);
            assert(ys[j] == ls[j - bs.len()]);
            assert(!already_seen(ls[j - bs.len()], Some(floor)));
        } else {
            assert(ys[i] == ls[i - bs.len()] && ys[j] == ls[j - bs.len()]);
        }
    }
}

} // verus!

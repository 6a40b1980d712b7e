//! The decisions of the stage that polls a Midnight node's JSON-RPC endpoint
//! for newly finalized blocks.

use vstd::prelude::*;

verus! {

/// How a worker step failed.
#[derive(Clone, Copy, Debug, PartialEq, Eq, Structural)]
pub enum WorkerError {
    /// Try again later.
    Retry,
    /// Give up.
    Panic,
}

/// What a JSON-RPC reply means: it must parse (else give up), and it must
/// carry no `error` member (else retry); otherwise its `result` is used.
pub fn rpc_reply_status(parsed: bool, has_error: bool) -> (r: Result<(), WorkerError>)
    ensures
        !parsed ==> r == Err::<(), WorkerError>(WorkerError::Panic),
        parsed && has_error ==> r == Err::<(), WorkerError>(WorkerError::Retry),
        parsed && !has_error ==> r is Ok,
{
    if !parsed {
        Err(WorkerError::Panic)
    } else if has_error {
        Err(WorkerError::Retry)
    } else {
        Ok(())
    }
}

/// The finalized head from the `result` of a `chain_getFinalizedHead` call:
/// `result` is that member as a string, or `None` where it is no string, in
/// which case the worker gives up.
pub fn finalized_head_from(result: Option<String>) -> (r: Result<String, WorkerError>)
    ensures
        match result {
            Some(s) => r matches Ok(h) && h@ == s@,
            None => r == Err::<String, WorkerError>(WorkerError::Panic),
        },
{
    match result {
        Some(s) => Ok(s),
        None => Err(WorkerError::Panic),
    }
}

/// The block from the `result` of a `chain_getBlock` call: none where the
/// result is null (the node does not know the hash); otherwise `decoded` is
/// its `block` member as decoded, or `None` where it did not decode, in which
/// case the worker gives up.
pub fn block_from<B>(result_is_null: bool, decoded: Option<B>) -> (r: Result<Option<B>, WorkerError>)
    ensures
        result_is_null ==> r == Ok::<Option<B>, WorkerError>(None),
        !result_is_null ==> match decoded {
            Some(b) => r == Ok::<Option<B>, WorkerError>(Some(b)),
            None => r == Err::<Option<B>, WorkerError>(WorkerError::Panic),
        },
{
    if result_is_null {
        return Ok(None);
    }
    match decoded {
        Some(b) => Ok(Some(b)),
        None => Err(WorkerError::Panic),
    }
}

/// The stage's unit of work.
#[derive(Clone, Copy, Debug, PartialEq, Eq, Structural)]
pub enum WorkUnit {
    /// Poll the node for its finalized head.
    Poll,
}

/// The seconds between two polls.
pub fn poll_interval_secs() -> (r: u64)
    ensures
        r == 6,
{
    6
}

/// What to do after learning the finalized head.
#[derive(Clone, Copy, Debug, PartialEq, Eq, Structural)]
pub enum PollDecision {
    /// The head was already emitted: nothing to do.
    AlreadySeen,
    /// Fetch the head's block.
    Fetch,
}

/// The polling stage's state: the endpoint, the hash and the number of the
/// last block it emitted downstream, and how many it emitted.
pub struct Stage {
    pub rpc_url: String,
    pub last_seen_hash: Option<String>,
    pub last_seen_number: Option<u64>,
    pub block_count: u64,
}

/// The next block to emit when the finalized head is block `head` and block
/// `last` was emitted last: on a first poll the head itself; after that the
/// block right after `last`, up to the head; none once the head is reached.
pub open spec fn spec_next_height(last: Option<u64>, head: u64) -> Option<u64> {
    match last {
        None => Some(head),
        Some(l) => if l < head { Some((l + 1) as u64) } else { None },
    }
}

/// The blocks emitted, in order, when the stage catches up from block `l`
/// to the head `head`, emitting each block it is told to emit next.
pub open spec fn catch_up_heights(l: u64, head: u64) -> Seq<u64>
    decreases head - l,
{
    if l < head {
        seq![(l + 1) as u64] + catch_up_heights((l + 1) as u64, head)
    } else {
        Seq::empty()
    }
}

/// The decision about finalized head `hash` when `last` was emitted last.
pub open spec fn spec_poll_decision(last: Option<Seq<char>>, hash: Seq<char>) -> PollDecision {
    if last == Some(hash) { PollDecision::AlreadySeen } else { PollDecision::Fetch }
}

/// The last emitted hash.
pub open spec fn last_seen(s: &Stage) -> Option<Seq<char>> {
    match s.last_seen_hash {
        Some(h) => Some(h@),
        None => None,
    }
}

impl Stage {
    /// A stage for `rpc_url` that has emitted nothing.
    pub fn new(rpc_url: String) -> (s: Self)
        ensures
            s.rpc_url@ == rpc_url@,
            s.last_seen_hash is None,
            s.last_seen_number is None,
            s.block_count == 0,
    {
        Stage { rpc_url, last_seen_hash: None, last_seen_number: None, block_count: 0 }
    }

    /// Decides about the finalized head `hash`: skip it when it is the last
    /// block emitted, fetch it otherwise.
    pub fn on_finalized_head(&self, hash: &str) -> (d: PollDecision)
        ensures
            d == spec_poll_decision(last_seen(self), hash@),
    {
        match &self.last_seen_hash {
            Some(seen) => {
                if *seen == String::from_str(hash) {
                    PollDecision::AlreadySeen
                } else {
                    PollDecision::Fetch
                }
            },
            None => PollDecision::Fetch,
        }
    }

    /// The next block to fetch and emit, given that the finalized head is
    /// block `head`: every block after the last one emitted is emitted, in
    /// order, up to the head.
    pub fn next_height(&self, head: u64) -> (r: Option<u64>)
        ensures
            r == spec_next_height(self.last_seen_number, head),
    {
        match self.last_seen_number {
            None => Some(head),
            Some(l) => {
                if l < head {
                    Some(l + 1)
                } else {
                    None
                }
            },
        }
    }

    /// Records that block `number` with `hash` was emitted downstream.
    pub fn on_block_emitted(&mut self, hash: String, number: u64)
        ensures
            last_seen(final(self)) == Some(hash@),
            final(self).last_seen_number == Some(number),
            final(self).block_count == old(self).block_count.wrapping_add(1),
            final(self).rpc_url == old(self).rpc_url,
    {
        self.last_seen_hash = Some(hash);
        self.last_seen_number = Some(number);
        self.block_count = self.block_count.wrapping_add(1);
    }
}

/// A head that was just emitted is skipped when the next poll finds it
/// again, whatever was emitted before.
pub proof fn lemma_emitted_head_skipped(hash: Seq<char>)
    ensures
        spec_poll_decision(Some(hash), hash) == PollDecision::AlreadySeen,
{
}

/// Catching up emits every block after the last one emitted, in increasing
/// order, ending at the head: block `l + 1`, then `l + 2`, through `head`.
pub proof fn lemma_catch_up_emits_each_block(l: u64, head: u64)
    requires
        l < head,
    ensures
        catch_up_heights(l, head) == Seq::new((head - l) as nat, |i: int| (l + 1 + i) as u64),
        spec_next_height(Some(l), head) == Some((l + 1) as u64),
    decreases head - l,
{
    let rest = catch_up_heights((l + 1) as u64, head);
    let want = Seq::new((head - l) as nat, |i: int| (l + 1 + i) as u64);
    if l + 1 < head {
        lemma_catch_up_emits_each_block((l + 1) as u64, head);
    } else {
        assert(rest =~= Seq::<u64>::empty());
    }
    assert(catch_up_heights(l, head) == seq![(l + 1) as u64] + rest);
    assert forall|i: int| 0 <= i < want.len() implies #[trigger] catch_up_heights(l, head)[i] == want[i] by {
        if i > 0 {
            assert(catch_up_heights(l, head)[i] == rest[i - 1]);
        }
    }
    assert(catch_up_heights(l, head) =~= want);
}

/// Once the head was emitted, the next poll of the same head emits nothing.
pub proof fn lemma_caught_up_at_head(head: u64)
    ensures
        spec_next_height(Some(head), head) is None,
{
}

} // verus!

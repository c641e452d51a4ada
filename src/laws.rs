//! Laws that hold across calls of the cursors, stated over the spec functions
//! that the cursors' own contracts use.
use vstd::prelude::*;

use crate::composite::ForwardBackwardMessageSyncCursor;
use crate::message_cursor::{
    block_or, forward_after_tip, forward_answer, forward_past_stored, forward_range_fits, sat_sub,
    BackwardMessageSyncCursor, MessageSyncCursor,
};
use crate::range::BlockRange;
use crate::rate_limited::RateLimitedContractSyncCursor;

verus! {

/// One observation handed to the forward cursor.
pub enum ForwardEvent {
    /// The store holds `next_nonce`, dispatched at this block if known
    /// (`advance_past_stored`).
    Stored(Option<u32>),
    /// The chain holds `count` messages at block `tip` (`range_at_tip`).
    Tip { count: u32, tip: u32 },
    /// A fetch returned messages with these nonces; the block is the store's
    /// dispatch block of the previous nonce (`update`).
    Fetched(Seq<u32>, Option<u32>),
}

/// The forward state after one event.
pub open spec fn forward_step(c: MessageSyncCursor, e: ForwardEvent) -> MessageSyncCursor {
    match e {
        ForwardEvent::Stored(d) => forward_past_stored(c, d),
        ForwardEvent::Tip { count, tip } => forward_after_tip(c, count, tip),
        ForwardEvent::Fetched(logs, b) => c.reconciled(logs, b),
    }
}

/// The forward state after a sequence of events.
pub open spec fn forward_run(c: MessageSyncCursor, events: Seq<ForwardEvent>) -> MessageSyncCursor
    decreases events.len(),
{
    if events.len() == 0 {
        c
    } else {
        forward_run(forward_step(c, events[0]), events.drop_first())
    }
}

/// An event that reports no gap, shows dispatch blocks at or past the
/// cursor's next block, and a tip at or past it when the cursor is caught up.
pub open spec fn forward_orderly(c: MessageSyncCursor, e: ForwardEvent) -> bool {
    match e {
        ForwardEvent::Stored(d) => c.next_nonce < u32::MAX && block_or(d, c.next_block) >= c.next_block,
        ForwardEvent::Tip { count, tip } => (c.next_nonce == count ==> tip >= c.next_block)
            && forward_range_fits(c, count, tip),
        ForwardEvent::Fetched(logs, b) => !c.gap_in(logs),
    }
}

/// Every event of the sequence is orderly where it is applied.
pub open spec fn forward_run_orderly(c: MessageSyncCursor, events: Seq<ForwardEvent>) -> bool
    decreases events.len(),
{
    events.len() == 0 || (forward_orderly(c, events[0]) && forward_run_orderly(
        forward_step(c, events[0]),
        events.drop_first(),
    ))
}

/// Forward monotonicity: over any sequence of orderly calls of the forward
/// cursor, neither its next nonce nor its next block goes down.
pub proof fn forward_monotone(c: MessageSyncCursor, events: Seq<ForwardEvent>)
    requires
        forward_run_orderly(c, events),
    ensures
        forward_run(c, events).next_nonce >= c.next_nonce,
        forward_run(c, events).next_block >= c.next_block,
        forward_run(c, events).start_block == c.start_block,
        forward_run(c, events).chunk_size == c.chunk_size,
    decreases events.len(),
{
    if events.len() > 0 {
        let c1 = forward_step(c, events[0]);
        assert(c1.next_nonce >= c.next_nonce && c1.next_block >= c.next_block);
        forward_monotone(c1, events.drop_first());
    }
}

/// An event that keeps every forward step within the machine's integers.
pub open spec fn forward_in_range(c: MessageSyncCursor, e: ForwardEvent) -> bool {
    match e {
        ForwardEvent::Stored(_) => c.next_nonce < u32::MAX,
        ForwardEvent::Tip { count, tip } => forward_range_fits(c, count, tip),
        ForwardEvent::Fetched(_, _) => true,
    }
}

/// Every event of the sequence is within the machine's integers where it is
/// applied.
pub open spec fn forward_run_in_range(c: MessageSyncCursor, events: Seq<ForwardEvent>) -> bool
    decreases events.len(),
{
    events.len() == 0 || (forward_in_range(c, events[0]) && forward_run_in_range(
        forward_step(c, events[0]),
        events.drop_first(),
    ))
}

/// The forward cursor's next nonce never goes down, whatever the store, the
/// chain and the fetches report.
pub proof fn forward_nonce_never_decreases(c: MessageSyncCursor, events: Seq<ForwardEvent>)
    requires
        forward_run_in_range(c, events),
    ensures
        forward_run(c, events).next_nonce >= c.next_nonce,
    decreases events.len(),
{
    if events.len() > 0 {
        forward_nonce_never_decreases(forward_step(c, events[0]), events.drop_first());
    }
}

/// The backward state after the store showed each nonce in turn, with these
/// dispatch blocks.
pub open spec fn backward_run(b: BackwardMessageSyncCursor, dispatched: Seq<Option<u32>>) -> BackwardMessageSyncCursor
    decreases dispatched.len(),
{
    if dispatched.len() == 0 {
        b
    } else {
        backward_run(b.past_stored(dispatched[0]), dispatched.drop_first())
    }
}

/// A backward cursor that is done stays done: neither stored nonces nor
/// handing out chunks moves it, and it hands out no more ranges.
pub proof fn backward_done_stays_done(b: BackwardMessageSyncCursor, dispatched: Seq<Option<u32>>)
    requires
        b.synced,
    ensures
        backward_run(b, dispatched) == b,
        b.chunk() is None,
        b.after_chunk() == b,
    decreases dispatched.len(),
{
    if dispatched.len() > 0 {
        backward_done_stays_done(b, dispatched.drop_first());
    }
}

/// Backward termination: once the store has shown more stored nonces than
/// the backward cursor's next nonce, the cursor is done.
pub proof fn backward_terminates(b: BackwardMessageSyncCursor, dispatched: Seq<Option<u32>>)
    requires
        dispatched.len() > b.cursor.next_nonce,
    ensures
        backward_run(b, dispatched).synced,
    decreases dispatched.len(),
{
    if b.synced {
        backward_done_stays_done(b, dispatched);
    } else {
        let b1 = b.past_stored(dispatched[0]);
        if b1.synced {
            backward_done_stays_done(b1, dispatched.drop_first());
        } else {
            backward_terminates(b1, dispatched.drop_first());
        }
    }
}

/// Each stored nonce either ends the backward pass or lowers the nonce the
/// cursor looks for; a done cursor stays done through fetches too, and the
/// cursor hands out a range exactly while it is not done.
pub proof fn backward_step_progress(
    b: BackwardMessageSyncCursor,
    dispatched_block: Option<u32>,
    log_nonces: Seq<u32>,
    prev_dispatched_block: Option<u32>,
)
    ensures
        !b.synced ==> b.past_stored(dispatched_block).synced || b.past_stored(
            dispatched_block,
        ).cursor.next_nonce < b.cursor.next_nonce,
        b.synced ==> b.past_stored(dispatched_block).synced && b.after_chunk().synced,
        (b.chunk() is None) == b.synced,
        b.after_chunk().synced == b.synced,
{
}

/// No-gap idempotence: a fetch that holds the expected nonce leaves the
/// cursor as it was, so the forward cursor's next range starts where it would
/// have started anyway.
pub proof fn fetch_without_gap_keeps_progress(
    c: MessageSyncCursor,
    log_nonces: Seq<u32>,
    prev_dispatched_block: Option<u32>,
    count: u32,
    tip: u32,
)
    requires
        log_nonces.contains(c.next_nonce),
    ensures
        c.reconciled(log_nonces, prev_dispatched_block) == c,
        forward_answer(c.reconciled(log_nonces, prev_dispatched_block), count, tip)
            == forward_answer(c, count, tip),
        c.next_nonce < count && c.next_block <= tip ==> (forward_answer(c.reconciled(log_nonces, prev_dispatched_block), count, tip)
            matches Ok(Some(r)) && r.from == c.next_block),
{
}

/// Gap rewind: when nonce `n` is known to be dispatched at block `b` and a
/// fetch returns messages without `n + 1`, the forward cursor that looked for
/// `n + 1` asks next for a range that starts at `b` (once the tip has reached
/// `b`); without a known block it starts at its start block.
pub proof fn gap_rewinds_to_dispatch_block(
    c: MessageSyncCursor,
    log_nonces: Seq<u32>,
    b: u32,
    count: u32,
    tip: u32,
)
    requires
        log_nonces.len() > 0,
        !log_nonces.contains(c.next_nonce),
        c.next_nonce < count,
        b <= tip,
    ensures
        c.reconciled(log_nonces, Some(b)).next_block == b,
        forward_answer(c.reconciled(log_nonces, Some(b)), count, tip) matches Ok(Some(r)) && r.from == b,
        c.start_block <= tip ==> (forward_answer(c.reconciled(log_nonces, None), count, tip) matches Ok(
            Some(r),
        ) && r.from == c.start_block),
{
}

/// Priority: whenever the forward cursor has a range, that range is served,
/// whatever state the backward cursor is in.
pub proof fn forward_has_priority(c: ForwardBackwardMessageSyncCursor, forward_range: Option<BlockRange>)
    requires
        forward_range is Some,
    ensures
        c.served(forward_range) == forward_range,
{
}

/// Range bound: every range of the rate-limited cursor ends at or below the
/// tip known at the call and spans at most one chunk.
pub proof fn rate_limited_range_bounded(c: RateLimitedContractSyncCursor)
    ensures
        c.range().to <= c.tip,
        c.range().from <= c.range().to,
        c.range().to - c.range().from <= c.chunk_size,
{
}

/// Watermark conservatism: once `from` is a chunk or more past the initial
/// height, the persisted watermark lags `from` by a full chunk.
pub proof fn watermark_lags_one_chunk(c: RateLimitedContractSyncCursor)
    requires
        c.from - c.chunk_size >= c.initial_height,
    ensures
        c.watermark_of() <= c.from - c.chunk_size,
        c.watermark_of() == sat_sub(c.from, c.chunk_size),
{
}

/// The watermark never passes the last block handed out, `from - 1`, and
/// lags `from` by at most one chunk, once `from` is past the initial height.
pub proof fn watermark_within_one_chunk(c: RateLimitedContractSyncCursor)
    requires
        c.from > c.initial_height,
        c.chunk_size > 0,
    ensures
        sat_sub(c.from, c.chunk_size) <= c.watermark_of(),
        c.watermark_of() <= c.from - 1,
{
}

} // verus!

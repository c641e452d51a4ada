use contract_sync_cursor::composite::{ForwardBackwardMessageSyncCursor, SyncDirection};
use contract_sync_cursor::message_cursor::{
    BackwardMessageSyncCursor, ForwardMessageSyncCursor, MessageSyncCursor,
};
use contract_sync_cursor::range::{chunk_end_of, BlockRange, CursorError};
use contract_sync_cursor::rate_limited::{RateLimit, RateLimitedContractSyncCursor};

fn forward(chunk: u32, start: u32, block: u32, nonce: u32) -> ForwardMessageSyncCursor {
    ForwardMessageSyncCursor::new(MessageSyncCursor::new(chunk, start, block, nonce))
}

#[test]
fn forward_caught_up_then_behind() {
    let mut f = forward(10, 25, 25, 25);
    assert_eq!(f.range_at_tip(25, 25), Ok(None));
    assert_eq!(f.0.next_block, 25);
    assert_eq!(f.range_at_tip(27, 30), Ok(Some(BlockRange::new(25, 30))));
    assert_eq!(f.0.next_block, 31);
    assert_eq!(f.0.next_nonce, 25);
}

#[test]
fn forward_range_is_one_chunk_when_far_behind() {
    let mut f = forward(10, 0, 100, 3);
    assert_eq!(f.range_at_tip(9, 1000), Ok(Some(BlockRange::new(100, 110))));
    assert_eq!(f.0.next_block, 111);
}

#[test]
fn forward_ahead_of_tip_is_an_error() {
    let mut f = forward(10, 0, 100, 12);
    let before = f;
    assert_eq!(
        f.range_at_tip(11, 200),
        Err(CursorError::AheadOfTip { cursor_count: 12, tip_count: 11 })
    );
    assert_eq!(f, before);
}

#[test]
fn forward_advances_past_stored_messages() {
    let mut f = forward(10, 0, 40, 7);
    f.advance_past_stored(Some(52));
    assert_eq!((f.0.next_block, f.0.next_nonce), (52, 8));
    f.advance_past_stored(None);
    assert_eq!((f.0.next_block, f.0.next_nonce), (52, 9));
}

#[test]
fn forward_prev_nonce_saturates() {
    assert_eq!(forward(10, 0, 0, 0).prev_nonce(), 0);
    assert_eq!(forward(10, 0, 0, 8).prev_nonce(), 7);
}

#[test]
fn update_with_expected_nonce_keeps_progress() {
    let mut f = forward(10, 5, 31, 25);
    let logs = vec![24, 25, 26];
    assert!(!f.has_gap(&logs));
    f.update(&logs, Some(3));
    assert_eq!(f.0.next_block, 31);
    assert_eq!(f.range_at_tip(30, 100), Ok(Some(BlockRange::new(31, 41))));
}

#[test]
fn update_with_no_logs_keeps_progress() {
    let mut f = forward(10, 5, 31, 25);
    assert!(!f.has_gap(&vec![]));
    f.update(&vec![], None);
    assert_eq!(f.0.next_block, 31);
}

#[test]
fn gap_rewinds_to_previous_dispatch_block() {
    let mut f = forward(10, 5, 31, 25);
    let logs = vec![26, 27];
    assert!(f.has_gap(&logs));
    assert_eq!(f.prev_nonce(), 24);
    f.update(&logs, Some(18));
    assert_eq!(f.0.next_block, 18);
    assert_eq!(f.range_at_tip(30, 100), Ok(Some(BlockRange::new(18, 28))));
}

#[test]
fn gap_without_known_block_rewinds_to_start() {
    let mut f = forward(10, 5, 31, 25);
    f.update(&vec![30], None);
    assert_eq!(f.0.next_block, 5);
}

#[test]
fn backward_hands_out_chunks_going_down() {
    let mut b = BackwardMessageSyncCursor::new(MessageSyncCursor::new(10, 25, 25, 4), false);
    assert_eq!(b.take_range(), Some(BlockRange::new(15, 25)));
    assert_eq!(b.cursor.next_block, 14);
    assert_eq!(b.take_range(), Some(BlockRange::new(4, 14)));
    assert_eq!(b.take_range(), Some(BlockRange::new(0, 3)));
    assert_eq!(b.cursor.next_block, 0);
    assert_eq!(b.take_range(), Some(BlockRange::new(0, 0)));
}

#[test]
fn backward_steps_past_stored_until_nonce_zero() {
    let mut b = BackwardMessageSyncCursor::new(MessageSyncCursor::new(10, 50, 50, 2), false);
    assert!(b.wants_dispatched_block());
    b.step_past_stored(Some(40));
    assert_eq!((b.cursor.next_block, b.cursor.next_nonce, b.synced), (40, 1, false));
    b.step_past_stored(None);
    assert_eq!((b.cursor.next_block, b.cursor.next_nonce, b.synced), (40, 0, false));
    assert!(!b.wants_dispatched_block());
    b.step_past_stored(None);
    assert!(b.synced);
    assert_eq!(b.take_range(), None);
    let done = b;
    b.step_past_stored(Some(3));
    assert_eq!(b, done);
    assert_eq!(b.take_range(), None);
}

#[test]
fn backward_is_done_at_block_zero() {
    let mut b = BackwardMessageSyncCursor::new(MessageSyncCursor::new(10, 50, 50, 9), false);
    b.step_past_stored(Some(0));
    assert_eq!((b.cursor.next_block, b.cursor.next_nonce, b.synced), (0, 8, false));
    b.step_past_stored(Some(7));
    assert!(b.synced);
    assert_eq!(b.take_range(), None);
}

#[test]
fn backward_prev_nonce_is_the_one_above() {
    let b = BackwardMessageSyncCursor::new(MessageSyncCursor::new(10, 50, 50, 9), false);
    assert_eq!(b.prev_nonce(), 10);
    let top = BackwardMessageSyncCursor::new(MessageSyncCursor::new(10, 50, 50, u32::MAX), false);
    assert_eq!(top.prev_nonce(), u32::MAX);
}

#[test]
fn backward_gap_rewinds_to_start() {
    let mut b = BackwardMessageSyncCursor::new(MessageSyncCursor::new(10, 50, 20, 9), false);
    b.update(&vec![3], None);
    assert_eq!(b.cursor.next_block, 50);
    assert!(!b.synced);
}

#[test]
fn composite_starts_at_tip() {
    let c = ForwardBackwardMessageSyncCursor::new(10, 25, 25);
    assert_eq!(c.forward.0, MessageSyncCursor::new(10, 25, 25, 25));
    assert_eq!(c.backward.cursor, MessageSyncCursor::new(10, 25, 25, 24));
    assert!(!c.backward.synced);
    assert_eq!(c.direction, SyncDirection::Forward);
    let empty = ForwardBackwardMessageSyncCursor::new(10, 0, 25);
    assert_eq!(empty.backward.cursor.next_nonce, 0);
    assert!(empty.backward.synced);
}

#[test]
fn composite_prefers_forward_work() {
    let mut c = ForwardBackwardMessageSyncCursor::new(10, 25, 25);
    let backward = c.backward;
    let r = c.choose_range(Some(BlockRange::new(26, 30)));
    assert_eq!(r, Some(BlockRange::new(26, 30)));
    assert_eq!(c.direction, SyncDirection::Forward);
    assert_eq!(c.backward, backward);
}

#[test]
fn composite_backfills_when_forward_is_idle() {
    let mut c = ForwardBackwardMessageSyncCursor::new(10, 25, 25);
    assert_eq!(c.choose_range(None), Some(BlockRange::new(15, 25)));
    assert_eq!(c.direction, SyncDirection::Backward);
    assert_eq!(c.prev_nonce(), 25);
    c.update(&vec![30], Some(21));
    assert_eq!(c.backward.cursor.next_block, 21);
    assert_eq!(c.forward.0.next_block, 25);
}

#[test]
fn composite_idle_when_both_are_done() {
    let mut c = ForwardBackwardMessageSyncCursor::new(10, 0, 25);
    assert_eq!(c.choose_range(None), None);
    assert_eq!(c.direction, SyncDirection::Forward);
    assert_eq!(c.prev_nonce(), 0);
    assert!(c.has_gap(&vec![4]));
}

#[test]
fn chunk_end_stops_at_tip() {
    assert_eq!(chunk_end_of(10, 5, 100), 15);
    assert_eq!(chunk_end_of(10, 5, 12), 12);
    assert_eq!(chunk_end_of(u32::MAX, u32::MAX, 7), 7);
}

#[test]
fn rate_limited_ranges_stay_under_tip() {
    let mut c = RateLimitedContractSyncCursor::new(100, 30, 10);
    assert_eq!(c.rate_limit(), RateLimit::CatchUp);
    let r = c.next_range();
    assert_eq!(r, BlockRange::new(10, 40));
    assert!(c.behind_tip(r));
    assert_eq!(c.from, 41);
    assert_eq!(c.next_range(), BlockRange::new(41, 71));
    assert_eq!(c.rate_limit(), RateLimit::RefreshTip);
    let last = c.next_range();
    assert_eq!(last, BlockRange::new(70, 100));
    assert!(!c.behind_tip(last));
    assert_eq!(c.from, 101);
    c.set_tip(120);
    assert_eq!(c.tip, 120);
    assert_eq!(c.next_range(), BlockRange::new(90, 120));
}

#[test]
fn rate_limited_first_range_near_genesis() {
    let mut c = RateLimitedContractSyncCursor::new(5, 30, 0);
    assert_eq!(c.rate_limit(), RateLimit::RefreshTip);
    assert_eq!(c.next_range(), BlockRange::new(0, 5));
}

#[test]
fn watermark_lags_a_chunk() {
    let mut c = RateLimitedContractSyncCursor::new(1000, 10, 100);
    assert_eq!(c.watermark(), 100);
    c.next_range();
    c.next_range();
    assert_eq!(c.from, 122);
    assert_eq!(c.watermark(), 112);
    let low = RateLimitedContractSyncCursor::new(1000, 10, 0);
    assert_eq!(low.watermark(), 0);
}

#[test]
fn forward_progress_never_goes_down_without_gaps() {
    let mut f = forward(10, 0, 25, 25);
    let start = (f.0.next_nonce, f.0.next_block);
    assert_eq!(f.range_at_tip(25, 25), Ok(None));
    assert_eq!(f.range_at_tip(27, 30), Ok(Some(BlockRange::new(25, 30))));
    f.update(&vec![25, 26], None);
    let last = (f.0.next_nonce, f.0.next_block);
    assert!(last.0 >= start.0 && last.1 >= start.1);
    f.advance_past_stored(Some(31));
    f.advance_past_stored(None);
    assert!(f.0.next_nonce >= last.0 && f.0.next_block >= last.1);
    assert_eq!((f.0.next_nonce, f.0.next_block), (27, 31));
    assert_eq!(f.range_at_tip(27, 40), Ok(None));
    assert_eq!(f.0.next_block, 40);
}

#[test]
fn backward_done_within_next_nonce_plus_one_steps() {
    let mut b = BackwardMessageSyncCursor::new(MessageSyncCursor::new(10, 900, 900, 5), false);
    for _ in 0..6 {
        b.step_past_stored(Some(100));
    }
    assert!(b.synced);
    assert_eq!(b.take_range(), None);
}

#[test]
fn forward_waits_while_next_block_is_past_tip() {
    let mut f = forward(10, 0, 31, 25);
    let before = f;
    assert_eq!(f.range_at_tip(27, 30), Ok(None));
    assert_eq!(f, before);
    assert_eq!(f.range_at_tip(27, 31), Ok(Some(BlockRange::new(31, 31))));
    assert_eq!(f.0.next_block, 32);
}

#[test]
fn forward_range_may_end_at_the_last_block_but_one() {
    let mut f = forward(4, 0, u32::MAX - 5, 0);
    assert_eq!(f.range_at_tip(1, u32::MAX), Ok(Some(BlockRange::new(u32::MAX - 5, u32::MAX - 1))));
    assert_eq!(f.0.next_block, u32::MAX);
}

#[test]
fn rate_limited_range_below_a_maximal_tip() {
    let mut c = RateLimitedContractSyncCursor::new(u32::MAX, 10, 100);
    assert_eq!(c.next_range(), BlockRange::new(100, 110));
    assert_eq!(c.from, 111);
}

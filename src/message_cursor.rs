//! Nonce-chasing message cursors: the shared state, the forward cursor that
//! follows the chain's tip, and the backward cursor that walks down to nonce
//! zero.
use vstd::prelude::*;

use crate::range::{chunk_end, chunk_end_of, BlockRange, CursorError};

verus! {

/// Sync progress of one message cursor.
#[derive(Clone, Copy, Debug, PartialEq, Eq, Structural)]
pub struct MessageSyncCursor {
    pub chunk_size: u32,
    /// The block the cursor rewinds to when nothing better is known.
    pub start_block: u32,
    /// The next block that should be indexed.
    pub next_block: u32,
    /// The next nonce that the cursor is looking for.
    pub next_nonce: u32,
}

/// `a - b`, or zero where that would be negative.
pub open spec fn sat_sub(a: u32, b: u32) -> u32 {
    if a >= b {
        (a - b) as u32
    } else {
        0
    }
}

/// `Some(b)` gives `b`, `None` gives `default`.
pub open spec fn block_or(found: Option<u32>, default: u32) -> u32 {
    match found {
        Some(b) => b,
        None => default,
    }
}

impl MessageSyncCursor {
    pub fn new(chunk_size: u32, start_block: u32, next_block: u32, next_nonce: u32) -> (r: Self)
        ensures
            r == (MessageSyncCursor { chunk_size, start_block, next_block, next_nonce }),
    {
        MessageSyncCursor { chunk_size, start_block, next_block, next_nonce }
    }

    /// Fetched messages were found, but not the one with the expected nonce.
    pub open spec fn gap_in(self, log_nonces: Seq<u32>) -> bool {
        log_nonces.len() > 0 && !log_nonces.contains(self.next_nonce)
    }

    /// The state after a fetch whose messages carry `log_nonces`: on a gap the
    /// cursor goes back to the block where the previous nonce was dispatched,
    /// or to its start block when that is unknown.
    pub open spec fn reconciled(self, log_nonces: Seq<u32>, prev_dispatched_block: Option<u32>) -> Self {
        if self.gap_in(log_nonces) {
            MessageSyncCursor {
                next_block: block_or(prev_dispatched_block, self.start_block),
                ..self
            }
        } else {
            self
        }
    }

    /// Whether the fetched messages, given by their nonces, show a gap; only
    /// then does `update` need the previous nonce's dispatch block.
    pub fn has_gap(&self, log_nonces: &Vec<u32>) -> (r: bool)
        ensures
            r == self.gap_in(log_nonces@),
    {
        if log_nonces.len() == 0 {
            return false;
        }
        let mut i: usize = 0;
        while i < log_nonces.len()
            invariant
                0 <= i <= log_nonces@.len(),
                forall|j: int| 0 <= j < i ==> log_nonces@[j] != self.next_nonce,
            decreases log_nonces@.len() - i,
        {
            if log_nonces[i] == self.next_nonce {
                assert(log_nonces@[i as int] == self.next_nonce);
                return false;
            }
            i = i + 1;
        }
        true
    }

    /// Reconciles the cursor with the nonces of the messages just fetched.
    /// `prev_dispatched_block` is where the store says the previous nonce was
    /// dispatched, if it knows.
    pub fn update(&mut self, log_nonces: &Vec<u32>, prev_dispatched_block: Option<u32>)
        ensures
            *final(self) == old(self).reconciled(log_nonces@, prev_dispatched_block),
    {
        if self.has_gap(log_nonces) {
            match prev_dispatched_block {
                Some(b) => {
                    self.next_block = b;
                },
                None => {
                    self.next_block = self.start_block;
                },
            }
        }
    }
}

/// A message cursor that syncs forwards in perpetuity.
#[derive(Clone, Copy, Debug, PartialEq, Eq, Structural)]
pub struct ForwardMessageSyncCursor(pub MessageSyncCursor);

/// The forward state after the store showed a message for `next_nonce`,
/// dispatched at `dispatched_block` if known.
pub open spec fn forward_past_stored(c: MessageSyncCursor, dispatched_block: Option<u32>) -> MessageSyncCursor
    recommends
        c.next_nonce < u32::MAX,
{
    MessageSyncCursor {
        next_block: block_or(dispatched_block, c.next_block),
        next_nonce: (c.next_nonce + 1) as u32,
        ..c
    }
}

/// What the forward cursor answers when the chain holds `count` messages at
/// block `tip`: nothing to do when it has them all, the next chunk when it is
/// behind, an error when it is ahead. While behind but with its next block
/// past the tip, it waits for the tip to catch up.
pub open spec fn forward_answer(c: MessageSyncCursor, count: u32, tip: u32) -> Result<Option<BlockRange>, CursorError> {
    if c.next_nonce == count {
        Ok(None)
    } else if c.next_nonce < count {
        if c.next_block <= tip {
            Ok(Some(BlockRange { from: c.next_block, to: chunk_end(c.next_block, c.chunk_size, tip) }))
        } else {
            Ok(None)
        }
    } else {
        Err(CursorError::AheadOfTip { cursor_count: c.next_nonce, tip_count: count })
    }
}

/// The block after a forward range's end fits in a `u32`.
pub open spec fn forward_range_fits(c: MessageSyncCursor, count: u32, tip: u32) -> bool {
    c.next_nonce < count && c.next_block <= tip ==> chunk_end(c.next_block, c.chunk_size, tip) < u32::MAX
}

/// The forward state after that answer.
pub open spec fn forward_after_tip(c: MessageSyncCursor, count: u32, tip: u32) -> MessageSyncCursor
    recommends
        forward_range_fits(c, count, tip),
{
    if c.next_nonce == count {
        MessageSyncCursor { next_block: tip, ..c }
    } else if c.next_nonce < count && c.next_block <= tip {
        MessageSyncCursor { next_block: (chunk_end(c.next_block, c.chunk_size, tip) + 1) as u32, ..c }
    } else {
        c
    }
}

impl ForwardMessageSyncCursor {
    pub fn new(cursor: MessageSyncCursor) -> (r: Self)
        ensures
            r.0 == cursor,
    {
        ForwardMessageSyncCursor(cursor)
    }

    /// Steps past a nonce that the store already holds: the cursor moves to the
    /// block where it was dispatched, if known, and looks for the next nonce.
    pub fn advance_past_stored(&mut self, dispatched_block: Option<u32>)
        requires
            old(self).0.next_nonce < u32::MAX,
        ensures
            final(self).0 == forward_past_stored(old(self).0, dispatched_block),
    {
        if let Some(b) = dispatched_block {
            self.0.next_block = b;
        }
        self.0.next_nonce = self.0.next_nonce + 1;
    }

    /// Decides the next range from the chain's message `count` at block `tip`.
    pub fn range_at_tip(&mut self, count: u32, tip: u32) -> (r: Result<Option<BlockRange>, CursorError>)
        requires
            forward_range_fits(old(self).0, count, tip),
        ensures
            r == forward_answer(old(self).0, count, tip),
            final(self).0 == forward_after_tip(old(self).0, count, tip),
            r matches Ok(Some(range)) ==> range.from <= range.to && range.to <= tip
                && range.to - range.from <= old(self).0.chunk_size,
    {
        let cursor_count = self.0.next_nonce;
        if cursor_count == count {
            self.0.next_block = tip;
            Ok(None)
        } else if cursor_count < count {
            if self.0.next_block > tip {
                return Ok(None);
            }
            let from = self.0.next_block;
            let to = chunk_end_of(from, self.0.chunk_size, tip);
            self.0.next_block = to + 1;
            Ok(Some(BlockRange { from, to }))
        } else {
            Err(CursorError::AheadOfTip { cursor_count, tip_count: count })
        }
    }

    /// The nonce before the one the cursor looks for.
    pub fn prev_nonce(&self) -> (r: u32)
        ensures
            r == if self.0.next_nonce == 0 { 0 } else { self.0.next_nonce - 1 },
    {
        self.0.next_nonce.saturating_sub(1)
    }

    /// Whether the fetched messages show a gap (see `MessageSyncCursor::has_gap`).
    pub fn has_gap(&self, log_nonces: &Vec<u32>) -> (r: bool)
        ensures
            r == self.0.gap_in(log_nonces@),
    {
        self.0.has_gap(log_nonces)
    }

    /// Reconciles with a fetch; `prev_dispatched_block` is the store's dispatch
    /// block of `prev_nonce()`.
    pub fn update(&mut self, log_nonces: &Vec<u32>, prev_dispatched_block: Option<u32>)
        ensures
            final(self).0 == old(self).0.reconciled(log_nonces@, prev_dispatched_block),
    {
        self.0.update(log_nonces, prev_dispatched_block);
    }
}

/// A message cursor that syncs backwards to nonce zero.
#[derive(Clone, Copy, Debug, PartialEq, Eq, Structural)]
pub struct BackwardMessageSyncCursor {
    pub cursor: MessageSyncCursor,
    /// Set once the cursor reached nonce zero or block zero; it is then done.
    pub synced: bool,
}

impl BackwardMessageSyncCursor {
    /// The state after the store showed a message for `next_nonce`, dispatched
    /// at `dispatched_block` if known: at nonce zero or block zero the cursor
    /// is done, else it moves to that block and looks for the nonce below.
    pub open spec fn past_stored(self, dispatched_block: Option<u32>) -> Self {
        if self.synced {
            self
        } else if self.cursor.next_nonce == 0 || self.cursor.next_block == 0 {
            BackwardMessageSyncCursor { synced: true, ..self }
        } else {
            BackwardMessageSyncCursor {
                cursor: MessageSyncCursor {
                    next_block: block_or(dispatched_block, self.cursor.next_block),
                    next_nonce: (self.cursor.next_nonce - 1) as u32,
                    ..self.cursor
                },
                ..self
            }
        }
    }

    /// The chunk that ends at `next_block`, unless the cursor is done.
    pub open spec fn chunk(self) -> Option<BlockRange> {
        if self.synced {
            None
        } else {
            Some(
                BlockRange {
                    from: sat_sub(self.cursor.next_block, self.cursor.chunk_size),
                    to: self.cursor.next_block,
                },
            )
        }
    }

    /// The state after handing out `chunk()`: the next chunk ends just below it.
    pub open spec fn after_chunk(self) -> Self {
        if self.synced {
            self
        } else {
            BackwardMessageSyncCursor {
                cursor: MessageSyncCursor {
                    next_block: sat_sub(sat_sub(self.cursor.next_block, self.cursor.chunk_size), 1),
                    ..self.cursor
                },
                ..self
            }
        }
    }

    pub fn new(cursor: MessageSyncCursor, synced: bool) -> (r: Self)
        ensures
            r == (BackwardMessageSyncCursor { cursor, synced }),
    {
        BackwardMessageSyncCursor { cursor, synced }
    }

    /// Whether `step_past_stored` will read its block argument, so that a
    /// caller looks the dispatch block of `next_nonce` up only then.
    pub fn wants_dispatched_block(&self) -> (r: bool)
        ensures
            r == (!self.synced && self.cursor.next_nonce != 0 && self.cursor.next_block != 0),
    {
        !self.synced && self.cursor.next_nonce != 0 && self.cursor.next_block != 0
    }

    /// Steps past a nonce that the store already holds (see `past_stored`).
    pub fn step_past_stored(&mut self, dispatched_block: Option<u32>)
        ensures
            *final(self) == old(self).past_stored(dispatched_block),
    {
        if self.synced {
            return;
        }
        if self.cursor.next_nonce == 0 || self.cursor.next_block == 0 {
            self.synced = true;
            return;
        }
        if let Some(b) = dispatched_block {
            self.cursor.next_block = b;
        }
        self.cursor.next_nonce = self.cursor.next_nonce.saturating_sub(1);
    }

    /// Hands out the next chunk going down, or `None` once done.
    pub fn take_range(&mut self) -> (r: Option<BlockRange>)
        ensures
            r == old(self).chunk(),
            *final(self) == old(self).after_chunk(),
    {
        if self.synced {
            return None;
        }
        let to = self.cursor.next_block;
        let from = to.saturating_sub(self.cursor.chunk_size);
        self.cursor.next_block = from.saturating_sub(1);
        Some(BlockRange { from, to })
    }

    /// The nonce after the one the cursor looks for.
    pub fn prev_nonce(&self) -> (r: u32)
        ensures
            r == if self.cursor.next_nonce == u32::MAX { u32::MAX } else { (self.cursor.next_nonce + 1) as u32 },
    {
        self.cursor.next_nonce.saturating_add(1)
    }

    /// Whether the fetched messages show a gap (see `MessageSyncCursor::has_gap`).
    pub fn has_gap(&self, log_nonces: &Vec<u32>) -> (r: bool)
        ensures
            r == self.cursor.gap_in(log_nonces@),
    {
        self.cursor.has_gap(log_nonces)
    }

    /// Reconciles with a fetch; `prev_dispatched_block` is the store's dispatch
    /// block of `prev_nonce()`.
    pub fn update(&mut self, log_nonces: &Vec<u32>, prev_dispatched_block: Option<u32>)
        ensures
            final(self).cursor == old(self).cursor.reconciled(log_nonces@, prev_dispatched_block),
            final(self).synced == old(self).synced,
    {
        self.cursor.update(log_nonces, prev_dispatched_block);
    }
}

} // verus!

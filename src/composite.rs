//! The forward-backward cursor: a forward cursor that follows the tip and a
//! backward cursor that backfills, with forward work always served first.
use vstd::prelude::*;

use crate::message_cursor::{BackwardMessageSyncCursor, ForwardMessageSyncCursor, MessageSyncCursor};
use crate::range::BlockRange;

verus! {

/// Which sub-cursor handed out the last range.
#[derive(Clone, Copy, Debug, PartialEq, Eq, Structural)]
pub enum SyncDirection {
    Forward,
    Backward,
}

/// A forward and a backward message cursor that share a starting point.
#[derive(Clone, Copy, Debug, PartialEq, Eq, Structural)]
pub struct ForwardBackwardMessageSyncCursor {
    pub forward: ForwardMessageSyncCursor,
    pub backward: BackwardMessageSyncCursor,
    pub direction: SyncDirection,
}

impl ForwardBackwardMessageSyncCursor {
    /// Starts both sub-cursors at `tip`, where the chain holds `count`
    /// messages: forward looks for nonce `count`, backward for the one below,
    /// and backward is done from the start when there is none.
    pub fn new(chunk_size: u32, count: u32, tip: u32) -> (r: Self)
        ensures
            r.forward.0 == (MessageSyncCursor {
                chunk_size,
                start_block: tip,
                next_block: tip,
                next_nonce: count,
            }),
            r.backward.cursor == (MessageSyncCursor {
                chunk_size,
                start_block: tip,
                next_block: tip,
                next_nonce: if count == 0 { 0 } else { (count - 1) as u32 },
            }),
            r.backward.synced == (count == 0),
            r.direction == SyncDirection::Forward,
    {
        let forward = ForwardMessageSyncCursor::new(MessageSyncCursor::new(chunk_size, tip, tip, count));
        let backward = BackwardMessageSyncCursor::new(
            MessageSyncCursor::new(chunk_size, tip, tip, count.saturating_sub(1)),
            count == 0,
        );
        ForwardBackwardMessageSyncCursor { forward, backward, direction: SyncDirection::Forward }
    }

    /// The range served after the forward cursor answered `forward_range`.
    pub open spec fn served(self, forward_range: Option<BlockRange>) -> Option<BlockRange> {
        if forward_range.is_some() {
            forward_range
        } else {
            self.backward.chunk()
        }
    }

    /// Serves a range: the forward cursor's, when it has one; else the
    /// backward cursor's next chunk. The direction records who served it.
    /// A caller brings the backward cursor up to date with the store before
    /// calling this without a forward range.
    pub fn choose_range(&mut self, forward_range: Option<BlockRange>) -> (r: Option<BlockRange>)
        ensures
            r == old(self).served(forward_range),
            final(self).forward == old(self).forward,
            forward_range.is_some() ==> final(self).backward == old(self).backward
                && final(self).direction == SyncDirection::Forward,
            forward_range.is_none() ==> final(self).backward == old(self).backward.after_chunk(),
            forward_range.is_none() && r.is_some() ==> final(self).direction == SyncDirection::Backward,
            r.is_none() ==> final(self).direction == old(self).direction,
    {
        if forward_range.is_some() {
            self.direction = SyncDirection::Forward;
            return forward_range;
        }
        let backward_range = self.backward.take_range();
        if backward_range.is_some() {
            self.direction = SyncDirection::Backward;
        }
        backward_range
    }

    /// The sub-cursor that served the last range.
    pub open spec fn active(self) -> MessageSyncCursor {
        match self.direction {
            SyncDirection::Forward => self.forward.0,
            SyncDirection::Backward => self.backward.cursor,
        }
    }

    /// The nonce whose dispatch block `update` takes: the one before the
    /// forward cursor's, or the one after the backward cursor's.
    pub fn prev_nonce(&self) -> (r: u32)
        ensures
            r == match self.direction {
                SyncDirection::Forward => if self.forward.0.next_nonce == 0 {
                    0
                } else {
                    (self.forward.0.next_nonce - 1) as u32
                },
                SyncDirection::Backward => if self.backward.cursor.next_nonce == u32::MAX {
                    u32::MAX
                } else {
                    (self.backward.cursor.next_nonce + 1) as u32
                },
            },
    {
        match self.direction {
            SyncDirection::Forward => self.forward.prev_nonce(),
            SyncDirection::Backward => self.backward.prev_nonce(),
        }
    }

    /// Whether the fetched messages show a gap for the active sub-cursor.
    pub fn has_gap(&self, log_nonces: &Vec<u32>) -> (r: bool)
        ensures
            r == self.active().gap_in(log_nonces@),
    {
        match self.direction {
            SyncDirection::Forward => self.forward.has_gap(log_nonces),
            SyncDirection::Backward => self.backward.has_gap(log_nonces),
        }
    }

    /// Routes a fetch's result to the sub-cursor that served its range.
    pub fn update(&mut self, log_nonces: &Vec<u32>, prev_dispatched_block: Option<u32>)
        ensures
            final(self).direction == old(self).direction,
            final(self).active() == old(self).active().reconciled(log_nonces@, prev_dispatched_block),
            old(self).direction == SyncDirection::Forward ==> final(self).backward == old(self).backward,
            old(self).direction == SyncDirection::Backward ==> final(self).forward == old(self).forward
                && final(self).backward.synced == old(self).backward.synced,
    {
        match self.direction {
            SyncDirection::Forward => self.forward.update(log_nonces, prev_dispatched_block),
            SyncDirection::Backward => self.backward.update(log_nonces, prev_dispatched_block),
        }
    }
}

} // verus!

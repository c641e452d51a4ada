//! A sequential range cursor bounded by the chain's finalized tip, which
//! persists a conservative high watermark.
use vstd::prelude::*;

use crate::message_cursor::sat_sub;
use crate::range::{chunk_end, chunk_end_of, BlockRange};

verus! {

/// What the rate limiter does before the next range.
#[derive(Clone, Copy, Debug, PartialEq, Eq, Structural)]
pub enum RateLimit {
    /// A full chunk stays below the known tip: pause briefly and go on.
    CatchUp,
    /// Within a chunk of the known tip: wait out the refresh interval and
    /// fetch the tip again.
    RefreshTip,
}

/// Progress of a rate-limited cursor.
#[derive(Clone, Copy, Debug, PartialEq, Eq, Structural)]
pub struct RateLimitedContractSyncCursor {
    /// The highest block that may be scanned.
    pub tip: u32,
    pub chunk_size: u32,
    /// The next block to scan.
    pub from: u32,
    pub initial_height: u32,
}

impl RateLimitedContractSyncCursor {
    /// A cursor that starts at `initial_height` under the finalized `tip`.
    pub fn new(tip: u32, chunk_size: u32, initial_height: u32) -> (r: Self)
        ensures
            r == (RateLimitedContractSyncCursor { tip, chunk_size, from: initial_height, initial_height }),
    {
        RateLimitedContractSyncCursor { tip, chunk_size, from: initial_height, initial_height }
    }

    /// Whether a full chunk from `from` stays below the known tip.
    pub open spec fn below_tip(self) -> bool {
        self.from + self.chunk_size < self.tip
    }

    /// Decides how to throttle before the next range.
    pub fn rate_limit(&self) -> (r: RateLimit)
        ensures
            r == if self.below_tip() { RateLimit::CatchUp } else { RateLimit::RefreshTip },
    {
        if (self.from as u64) + (self.chunk_size as u64) < (self.tip as u64) {
            RateLimit::CatchUp
        } else {
            RateLimit::RefreshTip
        }
    }

    /// Records a freshly fetched finalized tip.
    pub fn set_tip(&mut self, tip: u32)
        ensures
            *final(self) == (RateLimitedContractSyncCursor { tip, ..*old(self) }),
    {
        self.tip = tip;
    }

    /// The range handed out next: it ends at the tip or a chunk past `from`,
    /// whichever comes first, and spans at most one chunk.
    pub open spec fn range(self) -> BlockRange {
        let to = chunk_end(self.from, self.chunk_size, self.tip);
        BlockRange { from: sat_sub(to, self.chunk_size), to }
    }

    /// Hands out `range()` and moves `from` past its end.
    pub fn next_range(&mut self) -> (r: BlockRange)
        requires
            chunk_end(old(self).from, old(self).chunk_size, old(self).tip) < u32::MAX,
        ensures
            r == old(self).range(),
            *final(self) == (RateLimitedContractSyncCursor { from: (r.to + 1) as u32, ..*old(self) }),
            r.to <= old(self).tip,
            r.from <= r.to,
            r.to - r.from <= old(self).chunk_size,
    {
        let to = chunk_end_of(self.from, self.chunk_size, self.tip);
        let from = to.saturating_sub(self.chunk_size);
        self.from = to + 1;
        BlockRange { from, to }
    }

    /// Whether `range` ends below the tip, so that a time estimate is due.
    pub fn behind_tip(&self, range: BlockRange) -> (r: bool)
        ensures
            r == (range.to < self.tip),
    {
        range.to < self.tip
    }

    /// The high watermark to persist: one chunk behind `from`, but never
    /// below the initial height.
    pub open spec fn watermark_of(self) -> u32 {
        let lagged = sat_sub(self.from, self.chunk_size);
        if lagged < self.initial_height {
            self.initial_height
        } else {
            lagged
        }
    }

    /// Computes `watermark_of()`.
    pub fn watermark(&self) -> (r: u32)
        ensures
            r == self.watermark_of(),
    {
        let lagged = self.from.saturating_sub(self.chunk_size);
        if lagged < self.initial_height {
            self.initial_height
        } else {
            lagged
        }
    }
}

} // verus!

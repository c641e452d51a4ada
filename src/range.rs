//! Block ranges handed out by the cursors, and the cursor error kind.
use vstd::prelude::*;

verus! {

/// An inclusive range of blocks to fetch, `from..=to`.
#[derive(Clone, Copy, Debug, PartialEq, Eq, Structural)]
pub struct BlockRange {
    pub from: u32,
    pub to: u32,
}

impl BlockRange {
    pub fn new(from: u32, to: u32) -> (r: BlockRange)
        ensures
            r == (BlockRange { from, to }),
    {
        BlockRange { from, to }
    }
}

/// A broken cursor invariant: it is fatal for the cursor and never retried.
#[derive(Clone, Copy, Debug, PartialEq, Eq, Structural)]
pub enum CursorError {
    /// The cursor counts more messages than the chain reports at its tip.
    AheadOfTip { cursor_count: u32, tip_count: u32 },
}

/// `min(tip, from + chunk_size)`, the last block of a chunk that starts at
/// `from` and may not pass `tip`.
pub open spec fn chunk_end(from: u32, chunk_size: u32, tip: u32) -> u32 {
    if from + chunk_size < tip {
        (from + chunk_size) as u32
    } else {
        tip
    }
}

/// Computes `chunk_end` without overflow.
pub fn chunk_end_of(from: u32, chunk_size: u32, tip: u32) -> (r: u32)
    ensures
        r == chunk_end(from, chunk_size, tip),
        r <= tip,
        r <= from + chunk_size,
{
    if (from as u64) + (chunk_size as u64) < (tip as u64) {
        from + chunk_size
    } else {
        tip
    }
}

} // verus!

//! Decision logic of contract-sync cursors: which block range to fetch next,
//! and how to react to what a fetch returned.
//!
//! The cursors here hold plain state and take every outside observation (a
//! store lookup, the chain's message count and tip) as an argument, so each
//! transition is a verified function from state and observation to new state.
pub mod range;
pub mod message_cursor;
pub mod composite;
pub mod rate_limited;
pub mod laws;

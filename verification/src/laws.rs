//! What the calls of this library promise.
//!
//! Each law here is about calls that were made: it takes their arguments and their
//! results and says how these are related. But for whether a state is valid, nothing in
//! it goes through the functions by which the contracts describe a state, so that it
//! holds of what a call returns and not of how that is written down.
//!
//! Where a law follows several calls on one recording, each call has its own
//! reference, and what one call leaves is what the next one finds.

pub mod calling;
pub mod closing;
pub mod messages;
pub mod mixing;
pub mod opening;
pub mod pausing;
pub mod staging;
pub mod stamping;

//! A looping media-prefetch pipeline: a bounded pool of decoded media frames
//! is kept ready for a consumer, while the list of available media is sourced
//! from a pluggable backend and files are decoded off the hot path.
//!
//! The heart of the crate is the prefetch dispatcher in [`handler`]: a
//! single-writer state machine that owns the path queue, the ready-frame
//! queue and the concurrency counters, and that exchanges values with decode
//! workers, the refill task and the consumer only through message hand-off.

use vstd::prelude::*;

pub mod config;
pub mod error;
pub mod frame;
pub mod handler;
pub mod locator;
pub mod source;

verus! {

} // verus!

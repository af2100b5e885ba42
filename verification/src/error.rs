//! The error taxonomy of the prefetch pipeline.

use vstd::prelude::*;

verus! {

/// Everything that can go wrong inside the pipeline.
///
/// - `SourceUnavailable`: the media source cannot produce a locator list
///   (the directory cannot be listed, or the catalog connection cannot
///   execute). The dispatcher does not crash on it; the refill is retried
///   passively on the next backpressure check.
/// - `DecodeFailure`: a decode worker cannot turn a locator into a frame
///   (unreadable or corrupt file). The worker reports it explicitly so the
///   dispatcher can release the concurrency permit deterministically.
/// - `InvariantViolation`: the coordination accounting is broken (more decode
///   results than in-flight workers). Fatal; the caller should abort with a
///   diagnostic rather than attempt recovery.
#[derive(Clone, Copy, Debug, PartialEq, Eq, Structural)]
pub enum MediaError {
    SourceUnavailable,
    DecodeFailure,
    InvariantViolation,
}

} // verus!

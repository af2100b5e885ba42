//! Read-only pipeline configuration.

use vstd::prelude::*;

verus! {

/// Configuration of the prefetch pipeline, constructed once at startup and
/// never mutated afterwards.
///
/// `max_threads` is the concurrency ceiling: the number of decode workers
/// that may be in flight at once, and also the capacity of the ready-frame
/// queue. It must be at least 1.
#[derive(Clone, Debug)]
pub struct MediaConfig {
    pub data_folder: String,
    pub max_threads: u32,
}

impl MediaConfig {
    /// Chooses the data folder: the requested path when the surrounding
    /// program could confirm it is usable, the given fallback otherwise.
    ///
    /// Probing the filesystem is the caller's business; this function only
    /// fixes the decision taken on the probe's report.
    pub fn folder_exist(p: String, check_ok: bool, default_folder: String) -> (r: String)
        ensures
            r == if check_ok { p } else { default_folder },
    {
        if check_ok {
            p
        } else {
            default_folder
        }
    }

    /// Builds the configuration from already-validated plain values.
    pub fn new(data_folder: String, max_threads: u32) -> (c: Self)
        requires
            max_threads >= 1,
        ensures
            c.data_folder == data_folder,
            c.max_threads == max_threads,
            c.max_threads >= 1,
    {
        MediaConfig { data_folder, max_threads }
    }
}

} // verus!

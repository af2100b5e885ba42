//! Opaque identifiers of media items.

use vstd::prelude::*;

verus! {

/// An opaque reference to one unit of media content: a filesystem path for
/// the local backend, or a catalog-derived URL for the relational backend.
///
/// A locator is created by the media source and consumed exactly once by a
/// decode worker.
#[derive(Clone, Debug, PartialEq, Eq)]
pub struct MediaLocator {
    pub path: String,
}

impl MediaLocator {
    pub fn new(path: String) -> (l: Self)
        ensures
            l.path == path,
    {
        MediaLocator { path }
    }

    /// An owned copy known to carry the same path.
    pub fn duplicate(&self) -> (l: Self)
        ensures
            l == *self,
    {
        MediaLocator { path: self.path.clone() }
    }
}

} // verus!

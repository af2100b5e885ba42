//! The pluggable media sources: a local-directory lister and a catalog-backed
//! lister, behind one closed sum type so the dispatcher can swap one for the
//! other without touching the coordination logic.

use vstd::prelude::*;
use vstd::string::StringExecFns;

use rand::seq::SliceRandom;

use crate::error::MediaError;
use crate::locator::MediaLocator;

verus! {

/// Relies on rand::seq::SliceRandom::shuffle (Fisher-Yates over in-place
/// swaps) with a fresh thread-local generator: the slice after the call is a
/// permutation of the slice before it. Which permutation comes out is up to
/// the generator, so nothing more is claimed.
#[verifier::external_body]
fn shuffle_locators(v: &mut Vec<MediaLocator>)
    ensures
        final(v)@.to_multiset() == old(v)@.to_multiset(),
        final(v)@.len() == old(v)@.len(),
{
    v.shuffle(&mut rand::thread_rng());
}

/// One row of the catalog's media table, as plain values: the media URL and
/// the keys of the format and tag it is filed under.
#[derive(Clone, Debug, PartialEq, Eq)]
pub struct Media {
    pub url: String,
    pub format_id: i32,
    pub tag_id: i32,
}

/// One row of the catalog's format table.
#[derive(Clone, Debug, PartialEq, Eq)]
pub struct Format {
    pub id: i32,
    pub name: String,
}

/// One row of the catalog's tag table.
#[derive(Clone, Debug, PartialEq, Eq)]
pub struct Tag {
    pub id: i32,
    pub name: String,
}

/// The local backend: the media files found under the configured directory,
/// listed once at construction.
pub struct LocalMedia {
    pub media_paths: Vec<MediaLocator>,
}

impl LocalMedia {
    /// Builds the backend over the directory listing. Walking the filesystem
    /// is the surrounding program's business; the listing arrives here as
    /// plain locators.
    pub fn new(media_paths: Vec<MediaLocator>) -> (m: Self)
        ensures
            m.media_paths == media_paths,
    {
        LocalMedia { media_paths }
    }

    /// A fresh random permutation of the stored listing — not a stable
    /// cursor; every call shuffles anew.
    pub fn get_media_list(&self) -> (r: Vec<MediaLocator>)
        ensures
            r@.to_multiset() == self.media_paths@.to_multiset(),
            r@.len() == self.media_paths@.len(),
    {
        let mut copy: Vec<MediaLocator> = Vec::new();
        let mut i: usize = 0;
        while i < self.media_paths.len()
            invariant
                i <= self.media_paths@.len(),
                copy@ == self.media_paths@.take(i as int),
            decreases self.media_paths@.len() - i,
        {
            copy.push(self.media_paths[i].duplicate());
            i = i + 1;
            assert(copy@ =~= self.media_paths@.take(i as int));
        }
        assert(copy@ =~= self.media_paths@);
        shuffle_locators(&mut copy);
        copy
    }
}

/// The catalog backend: media rows are selected by format and tag in a
/// relational store reachable under `database_url`. Executing the query is
/// the surrounding program's business; this type fixes the filter and turns
/// the returned rows into locators.
pub struct PostgreSQLMedia {
    pub database_url: String,
    pub formats: Vec<String>,
    pub tags: Vec<String>,
}

impl PostgreSQLMedia {
    /// Builds the backend with the default filter: PNG or JPEG media carrying
    /// one of the default tags.
    pub fn new(database_url: String) -> (m: Self)
        ensures
            m.database_url == database_url,
            m.formats@.len() == 2,
            m.formats@[0]@ == "PNG"@,
            m.formats@[1]@ == "JPEG"@,
            m.tags@.len() == 2,
            m.tags@[0]@ == "TEST"@,
            m.tags@[1]@ == "oUI"@,
    {
        let mut formats: Vec<String> = Vec::new();
        formats.push(String::from_str("PNG"));
        formats.push(String::from_str("JPEG"));
        let mut tags: Vec<String> = Vec::new();
        tags.push(String::from_str("TEST"));
        tags.push(String::from_str("oUI"));
        PostgreSQLMedia { database_url, formats, tags }
    }

    /// Maps the rows the catalog returned to locators, one for one, keeping
    /// their order.
    pub fn get_media_list(&self, rows: Vec<Media>) -> (r: Vec<MediaLocator>)
        ensures
            r@.len() == rows@.len(),
            forall|i: int| 0 <= i < rows@.len() ==> r@[i].path == rows@[i].url,
    {
        let mut r: Vec<MediaLocator> = Vec::new();
        let mut rows = rows;
        let ghost all_rows = rows@;
        let mut i: usize = 0;
        while i < rows.len()
            invariant
                i <= all_rows.len(),
                rows@ == all_rows,
                r@.len() == i,
                forall|j: int| 0 <= j < i ==> r@[j].path == all_rows[j].url,
            decreases all_rows.len() - i,
        {
            let row = &rows[i];
            r.push(MediaLocator { path: row.url.clone() });
            i = i + 1;
        }
        r
    }
}

/// The closed choice of media source backends.
pub enum MediaSource {
    Local(LocalMedia),
    DB(PostgreSQLMedia),
}

impl MediaSource {
    /// Produces a locator batch.
    ///
    /// The local variant answers from its own listing, freshly shuffled. The
    /// catalog variant depends on the relational store: `catalog_rows` is
    /// what the surrounding program's query returned, or `None` when the
    /// connection could not execute, which surfaces as `SourceUnavailable`.
    /// The local variant ignores `catalog_rows`.
    pub fn get_media_list(&self, catalog_rows: Option<Vec<Media>>) -> (r: Result<
        Vec<MediaLocator>,
        MediaError,
    >)
        ensures
            match self {
                MediaSource::Local(m) => {
                    &&& r is Ok
                    &&& r->Ok_0@.to_multiset() == m.media_paths@.to_multiset()
                    &&& r->Ok_0@.len() == m.media_paths@.len()
                },
                MediaSource::DB(m) => match catalog_rows {
                    Some(rows) => {
                        &&& r is Ok
                        &&& r->Ok_0@.len() == rows@.len()
                        &&& forall|i: int|
                            0 <= i < rows@.len() ==> r->Ok_0@[i].path == rows@[i].url
                    },
                    None => r == Err::<Vec<MediaLocator>, MediaError>(
                        MediaError::SourceUnavailable,
                    ),
                },
            },
    {
        match self {
            MediaSource::Local(m) => Ok(m.get_media_list()),
            MediaSource::DB(m) => match catalog_rows {
                Some(rows) => Ok(m.get_media_list(rows)),
                None => Err(MediaError::SourceUnavailable),
            },
        }
    }
}

} // verus!

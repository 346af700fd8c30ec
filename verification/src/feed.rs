//! Feed providers: how a table name is resolved to a place on disk.
//!
//! A provider only knows the directory that holds a feed's tables; opening
//! and reading the tables is the caller's business.

use vstd::prelude::*;

verus! {

/// A source of feed tables: anything that can name the directory the
/// tables live in.
pub trait FeedProvider {
    /// The directory that holds the feed's tables.
    fn path(&self) -> &str;
}

/// A feed already materialized as a local directory of tables.
#[derive(Debug, Clone)]
pub struct LocalFeedProvider {
    path: String,
}

impl LocalFeedProvider {
    /// The directory this provider names.
    pub closed spec fn spec_path(self) -> Seq<char> {
        self.path@
    }

    /// A provider for the tables under `path`.
    pub fn new(path: &str) -> (r: LocalFeedProvider)
        ensures
            r.spec_path() == path@,
    {
        LocalFeedProvider { path: String::from_str(path) }
    }
}

impl FeedProvider for LocalFeedProvider {
    fn path(&self) -> &str {
        self.path.as_str()
    }
}

} // verus!

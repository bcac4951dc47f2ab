//! The command surface's data shapes.
//!
//! These are the request, query and response types the engine is driven
//! through, together with the defaulting rules applied at that boundary:
//! a paging query fills in offset 0, limit 50 and both filters off; a
//! search falls back to 50 hits; an OPML import is summarised by counts
//! and the errors it tolerated.

use vstd::prelude::*;
use vstd::string::*;

verus! {

/// A fully-defaulted article listing query.
pub struct ArticleQuery {
    pub feed_id: Option<i64>,
    pub offset: i64,
    pub limit: i64,
    pub unread_only: bool,
    pub favorites_only: bool,
}

/// An article listing query as it arrives, every knob optional.
pub struct GetArticlesQuery {
    pub feed_id: Option<i64>,
    pub offset: Option<i64>,
    pub limit: Option<i64>,
    pub unread_only: Option<bool>,
    pub favorites_only: Option<bool>,
}

impl GetArticlesQuery {
    /// Fill in the listing defaults: offset 0, limit 50, both filters off.
    pub fn into_query(self) -> (r: ArticleQuery)
        ensures
            r.feed_id == self.feed_id,
            r.offset == self.offset.unwrap_or(0),
            r.limit == self.limit.unwrap_or(50),
            r.unread_only == self.unread_only.unwrap_or(false),
            r.favorites_only == self.favorites_only.unwrap_or(false),
    {
        ArticleQuery {
            feed_id: self.feed_id,
            offset: self.offset.unwrap_or(0),
            limit: self.limit.unwrap_or(50),
            unread_only: self.unread_only.unwrap_or(false),
            favorites_only: self.favorites_only.unwrap_or(false),
        }
    }
}

/// A full-text search request.
pub struct SearchQuery {
    pub q: String,
    pub limit: Option<i64>,
}

impl SearchQuery {
    /// The number of hits to return: the requested limit, or 50.
    pub fn effective_limit(&self) -> (r: i64)
        ensures
            r == self.limit.unwrap_or(50),
    {
        match self.limit {
            Some(l) => l,
            None => 50,
        }
    }
}

/// The body of an add-feed request.
pub struct AddFeedRequest {
    pub url: String,
}

/// The body of a mark-all-read or mark-all-unread request.
pub struct MarkAllRequest {
    pub feed_id: Option<i64>,
}

/// The body of a create-folder request.
pub struct CreateFolderRequest {
    pub name: String,
}

/// The body of a rename-folder request.
pub struct RenameFolderRequest {
    pub name: String,
}

/// A count handed back to the caller.
pub struct CountResponse {
    pub count: i64,
}

/// An article body handed back to the caller.
pub struct ContentResponse {
    pub content: String,
}

/// A folder with the number of feeds filed under it.
pub struct Folder {
    pub id: i64,
    pub name: String,
    pub feed_count: i64,
}

/// A tag and the feeds it is attached to.
pub struct Tag {
    pub id: i64,
    pub name: String,
    pub feed_ids: Vec<i64>,
}

/// The summary of an OPML import: how many feeds were added, how many were
/// already subscribed, and the errors that were tolerated.
pub struct ImportResult {
    pub added: i64,
    pub skipped: i64,
    pub errors: Vec<String>,
}

impl ImportResult {
    /// An import that has processed nothing yet.
    pub fn new() -> (r: ImportResult)
        ensures
            r.added == 0,
            r.skipped == 0,
            r.errors@.len() == 0,
    {
        ImportResult { added: 0, skipped: 0, errors: Vec::new() }
    }

    /// Count one feed added.
    pub fn record_added(&mut self)
        requires
            old(self).added < i64::MAX,
        ensures
            final(self).added == old(self).added + 1,
            final(self).skipped == old(self).skipped,
            final(self).errors == old(self).errors,
    {
        self.added = self.added + 1;
    }

    /// Count one feed skipped as already subscribed.
    pub fn record_skipped(&mut self)
        requires
            old(self).skipped < i64::MAX,
        ensures
            final(self).skipped == old(self).skipped + 1,
            final(self).added == old(self).added,
            final(self).errors == old(self).errors,
    {
        self.skipped = self.skipped + 1;
    }

    /// Record one tolerated per-feed error.
    pub fn record_error(&mut self, message: String)
        ensures
            final(self).errors@ == old(self).errors@.push(message),
            final(self).added == old(self).added,
            final(self).skipped == old(self).skipped,
    {
        self.errors.push(message);
    }
}

} // verus!

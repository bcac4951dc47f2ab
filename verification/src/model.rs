//! The canonical feed model.
//!
//! Every dialect is parsed into one `Feed` of `FeedEntry` values, produced
//! fresh on each fetch and consumed immediately by the refresh logic. An
//! entry's `id` is never empty once parsing completes: a missing guid is
//! synthesised from the entry link, or from the feed URL and the entry's
//! ordinal.

use vstd::prelude::*;
use vstd::string::*;

use crate::date::UtcTime;

verus! {

/// One syndicated item of a feed.
#[derive(Debug)]
pub struct FeedEntry {
    pub id: String,
    pub title: String,
    pub link: String,
    pub content: Option<String>,
    pub summary: Option<String>,
    pub author: Option<String>,
    pub published: Option<UtcTime>,
    pub updated: Option<UtcTime>,
    pub categories: Vec<String>,
    pub image_url: Option<String>,
}

/// The mathematical shape of an entry.
#[verifier::ext_equal]
pub ghost struct EntryModel {
    pub id: Seq<char>,
    pub title: Seq<char>,
    pub link: Seq<char>,
    pub content: Option<Seq<char>>,
    pub summary: Option<Seq<char>>,
    pub author: Option<Seq<char>>,
    pub published: Option<UtcTime>,
    pub updated: Option<UtcTime>,
    pub categories: Seq<Seq<char>>,
    pub image_url: Option<Seq<char>>,
}

impl View for FeedEntry {
    type V = EntryModel;

    open spec fn view(&self) -> EntryModel {
        EntryModel {
            id: self.id@,
            title: self.title@,
            link: self.link@,
            content: self.content.deep_view(),
            summary: self.summary.deep_view(),
            author: self.author.deep_view(),
            published: self.published,
            updated: self.updated,
            categories: self.categories.deep_view(),
            image_url: self.image_url.deep_view(),
        }
    }
}

impl DeepView for FeedEntry {
    type V = EntryModel;

    open spec fn deep_view(&self) -> EntryModel {
        self@
    }
}

impl FeedEntry {
    /// The canonical per-entry identifier used for dedup.
    pub fn guid(&self) -> (r: &str)
        ensures
            r@ == self@.id,
    {
        self.id.as_str()
    }

    /// When the entry says it was published, if it said so at all.
    pub fn published_at(&self) -> (r: Option<UtcTime>)
        ensures
            r == self@.published,
    {
        self.published
    }
}

/// A parsed feed: transient, produced fresh on every fetch.
#[derive(Debug)]
pub struct Feed {
    pub title: String,
    pub link: String,
    pub feed_url: String,
    pub description: Option<String>,
    pub language: Option<String>,
    pub last_updated: Option<UtcTime>,
    pub entries: Vec<FeedEntry>,
}

/// The mathematical shape of a feed.
#[verifier::ext_equal]
pub ghost struct FeedModel {
    pub title: Seq<char>,
    pub link: Seq<char>,
    pub feed_url: Seq<char>,
    pub description: Option<Seq<char>>,
    pub language: Option<Seq<char>>,
    pub last_updated: Option<UtcTime>,
    pub entries: Seq<EntryModel>,
}

impl View for Feed {
    type V = FeedModel;

    open spec fn view(&self) -> FeedModel {
        FeedModel {
            title: self.title@,
            link: self.link@,
            feed_url: self.feed_url@,
            description: self.description.deep_view(),
            language: self.language.deep_view(),
            last_updated: self.last_updated,
            entries: self.entries.deep_view(),
        }
    }
}

impl DeepView for Feed {
    type V = FeedModel;

    open spec fn deep_view(&self) -> FeedModel {
        self@
    }
}

impl Feed {
    /// The site URL: the feed's link, or nothing where the feed gave none.
    pub fn site_url(&self) -> (r: Option<&str>)
        ensures
            self@.link.len() == 0 ==> r is None,
            self@.link.len() > 0 ==> (r matches Some(s) && s@ == self@.link),
    {
        if self.link.as_str().is_empty() {
            None
        } else {
            Some(self.link.as_str())
        }
    }

    /// When the feed says it was last built or updated, if it said at all.
    pub fn last_build_date(&self) -> (r: Option<UtcTime>)
        ensures
            r == self@.last_updated,
    {
        self.last_updated
    }

    /// The entries, in source document order.
    pub fn items(&self) -> (r: &[FeedEntry])
        ensures
            r.deep_view() == self@.entries,
    {
        self.entries.as_slice()
    }
}

/// What can go wrong while turning bytes into a feed.
#[derive(Debug)]
pub enum FeedError {
    /// Malformed XML: the parse attempt is aborted, no partial feed comes
    /// back.
    Xml(String),
    /// The detector found no recognizable root element.
    UnknownFormat,
    /// A required field was absent; the payload names it.
    MissingField(String),
    /// The network transport failed while fetching.
    Http(String),
    /// No feed was found by any discovery strategy.
    Discovery(String),
}

/// The mathematical shape of an error.
#[verifier::ext_equal]
pub ghost enum ErrorModel {
    Xml { msg: Seq<char> },
    UnknownFormat,
    MissingField { field: Seq<char> },
    Http { msg: Seq<char> },
    Discovery { msg: Seq<char> },
}

impl View for FeedError {
    type V = ErrorModel;

    open spec fn view(&self) -> ErrorModel {
        match self {
            FeedError::Xml(m) => ErrorModel::Xml { msg: m@ },
            FeedError::UnknownFormat => ErrorModel::UnknownFormat,
            FeedError::MissingField(f) => ErrorModel::MissingField { field: f@ },
            FeedError::Http(m) => ErrorModel::Http { msg: m@ },
            FeedError::Discovery(m) => ErrorModel::Discovery { msg: m@ },
        }
    }
}

impl DeepView for FeedError {
    type V = ErrorModel;

    open spec fn deep_view(&self) -> ErrorModel {
        self@
    }
}

/// The message each error renders to.
pub open spec fn error_message(e: ErrorModel) -> Seq<char> {
    match e {
        ErrorModel::Xml { msg } => "XML parsing error: "@ + msg,
        ErrorModel::UnknownFormat => "Unknown or unsupported feed format"@,
        ErrorModel::MissingField { field } => "Missing required field: "@ + field,
        ErrorModel::Http { msg } => "HTTP error: "@ + msg,
        ErrorModel::Discovery { msg } => "Feed discovery failed: "@ + msg,
    }
}

impl FeedError {
    /// Render the error as text for the caller.
    pub fn message(&self) -> (r: String)
        ensures
            r@ == error_message(self@),
    {
        match self {
            FeedError::Xml(m) => {
                let mut s = String::from_str("XML parsing error: ");
                s.append(m.as_str());
                s
            },
            FeedError::UnknownFormat => String::from_str("Unknown or unsupported feed format"),
            FeedError::MissingField(f) => {
                let mut s = String::from_str("Missing required field: ");
                s.append(f.as_str());
                s
            },
            FeedError::Http(m) => {
                let mut s = String::from_str("HTTP error: ");
                s.append(m.as_str());
                s
            },
            FeedError::Discovery(m) => {
                let mut s = String::from_str("Feed discovery failed: ");
                s.append(m.as_str());
                s
            },
        }
    }
}

} // verus!

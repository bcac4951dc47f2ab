//! A feed ingestion engine: format detection, RSS 2.0 / RSS 1.0 (RDF) /
//! Atom 1.0 parsing into one canonical model, permissive date parsing,
//! feed autodiscovery, and idempotent refresh bookkeeping.

pub mod api;
pub mod date;
pub mod detect;
pub mod discovery;
pub mod html;
pub mod model;
pub mod opml;
pub mod parser;
pub mod store;
pub mod strutil;
pub mod xml;

pub use model::Feed as ParsedFeed;
pub use model::FeedEntry as ParsedFeedEntry;
pub use opml::{parse_opml, OpmlError};
pub use parser::FeedParser;

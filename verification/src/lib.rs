//! Ingest syndication feeds of the two common XML schemas and produce a
//! uniform batch of canonical articles, optionally enriched with the full
//! text fetched from each article's own page under a concurrency ceiling.

pub mod article;
pub mod atom;
pub mod content;
pub mod feed_parser;
pub mod item_ext;
pub mod rss;
pub mod upgrade;
pub mod url_ext;

//! Recognizing a feed document: try the RSS-family schema first, then the
//! Atom-family schema; text that matches neither is a format error, fatal
//! for that input.

use vstd::prelude::*;

use crate::article::ArticleError;
use crate::article::Articles;
use crate::article::normalized_feed;
use crate::atom::AtomFeed;
use crate::atom::AtomFeedV;
use crate::rss::RssChannel;
use crate::rss::RssChannelV;

verus! {

/// The RSS channel model that a document's text parses to, absent when the
/// text is not a well-formed RSS document.
pub uninterp spec fn rss_doc_of(s: Seq<char>) -> Option<RssChannelV>;

/// The Atom feed model that a document's text parses to, absent when the
/// text is not a well-formed Atom document.
pub uninterp spec fn atom_doc_of(s: Seq<char>) -> Option<AtomFeedV>;

/// Relies on `rss::Channel::read_from` to parse an RSS 2.0 document: the
/// result is a function of the text alone.
#[verifier::external_body]
fn parse_rss_text(s: &str) -> (r: Option<Box<RssChannel>>)
    ensures
        r is Some <==> rss_doc_of(s@) is Some,
        r matches Some(c) ==> Some(c@) == rss_doc_of(s@),
{
    let ch = match rss::Channel::read_from(s.as_bytes()) {
        Ok(c) => c,
        Err(_) => return None,
    };
    let items = ch.items.into_iter().map(|it| crate::rss::RssItem {
        title: it.title,
        link: it.link,
        description: it.description,
        author: it.author,
        content: it.content,
        pub_date: it.pub_date,
        guid: it.guid.map(|g| g.value),
    }).collect();
    Some(Box::new(RssChannel { title: ch.title, link: ch.link, items }))
}

#[verifier::external_type_specification]
#[verifier::external_body]
pub struct ExEntry(atom_syndication::Entry);

/// Relies on the field layout of `atom_syndication::Entry`, and on chrono's
/// `DateTime::with_timezone` and `DateTime::to_rfc3339` to render each
/// timestamp in UTC: converts one parsed entry, field for field, into the
/// library's model.
#[verifier::external_body]
fn entry_model(e: atom_syndication::Entry) -> (r: crate::atom::AtomEntry) {
    crate::atom::AtomEntry {
        id: e.id,
        title: e.title.value,
        links: e.links.into_iter().map(|l| l.href).collect(),
        content: e.content.map(|c| crate::atom::AtomContentInfo {
            base: c.base,
            src: c.src,
            value: c.value,
        }),
        updated: e.updated.with_timezone(&chrono::Utc).to_rfc3339(),
        published: e.published.map(|t| t.with_timezone(&chrono::Utc).to_rfc3339()),
        authors: e.authors.into_iter().map(|p| p.name).collect(),
        summary: e.summary.map(|t| t.value),
    }
}

/// Relies on `atom_syndication::Feed::read_from` to parse an Atom document
/// (each entry converted by `entry_model`): the result is a function of the
/// text alone.
#[verifier::external_body]
fn parse_atom_text(s: &str) -> (r: Option<Box<AtomFeed>>)
    ensures
        r is Some <==> atom_doc_of(s@) is Some,
        r matches Some(f) ==> Some(f@) == atom_doc_of(s@),
{
    let f = match atom_syndication::Feed::read_from(s.as_bytes()) {
        Ok(f) => f,
        Err(_) => return None,
    };
    let entries = f.entries.into_iter().map(entry_model).collect();
    Some(Box::new(AtomFeed { title: f.title.value, base: f.base, entries }))
}

/// A recognized feed document of one of the two schemas.
#[derive(Debug)]
pub enum FeedParser {
    Rss(Box<RssChannel>),
    Atom(Box<AtomFeed>),
}

/// The one fatal error of a run: the input text matches neither schema.
/// The rejected text is carried for reporting.
#[derive(Debug)]
pub enum FeedParserError {
    InvalidFeed { content: String },
}

impl FeedParser {
    /// Recognize a feed document: the RSS-family schema is tried first, then
    /// the Atom-family schema; text matching neither is rejected whole.
    pub fn from_text(s: &str) -> (r: Result<FeedParser, FeedParserError>)
        ensures
            rss_doc_of(s@) matches Some(c) ==> {
                &&& r matches Ok(FeedParser::Rss(b))
                &&& b@ == c
            },
            rss_doc_of(s@) is None ==> (atom_doc_of(s@) matches Some(f) ==> {
                &&& r matches Ok(FeedParser::Atom(b))
                &&& b@ == f
            }),
            r is Err <==> rss_doc_of(s@) is None && atom_doc_of(s@) is None,
            r matches Err(e) ==> {
                &&& e matches FeedParserError::InvalidFeed { content }
                &&& content@ == s@
            },
    {
        if let Some(channel) = parse_rss_text(s) {
            Ok(FeedParser::Rss(channel))
        } else if let Some(feed) = parse_atom_text(s) {
            Ok(FeedParser::Atom(feed))
        } else {
            Err(FeedParserError::InvalidFeed { content: s.to_owned() })
        }
    }

    /// The batch this document normalizes to, one article per item in source
    /// order.
    pub fn parse(self) -> (r: Result<Articles, ArticleError>)
        ensures
            r is Ok,
            self matches FeedParser::Rss(c) ==> {
                &&& r matches Ok(a)
                &&& a@ == normalized_feed(*c)
            },
            self matches FeedParser::Atom(f) ==> {
                &&& r matches Ok(a)
                &&& a@ == normalized_feed(*f)
            },
    {
        match self {
            FeedParser::Rss(channel) => Articles::parse(*channel),
            FeedParser::Atom(feed) => Articles::parse(*feed),
        }
    }
}

} // verus!

//! Best-effort URL resolution: parse a candidate link into a normalized URL,
//! degrading to absent when no candidate is present or it is malformed.

use vstd::prelude::*;
use vstd::string::StringExecFns;

use crate::article::opt_view;
use crate::atom::AtomEntry;
use crate::atom::AtomFeed;
use crate::atom::candidate_link;
use crate::rss::RssChannel;
use crate::rss::RssItem;

verus! {

/// The normalized rendering of a URL, absent when the text is not a
/// syntactically valid URL.
pub uninterp spec fn url_norm(s: Seq<char>) -> Option<Seq<char>>;

/// Relies on `url::Url::parse` to parse and normalize an absolute URL, and
/// on the crate's `From<Url> for String` to render it: the result is a
/// function of the input text alone.
#[verifier::external_body]
pub(crate) fn parse_url(s: &str) -> (r: Option<String>)
    ensures
        r is Some <==> url_norm(s@) is Some,
        r matches Some(u) ==> Some(u@) == url_norm(s@),
{
    match url::Url::parse(s) {
        Ok(u) => Some(String::from(u)),
        Err(_) => None,
    }
}

/// A best-effort URL, with parse failure degraded to absent.
pub trait HasUrl {
    spec fn opt_url_spec(&self) -> Option<Seq<char>>;

    fn get_url(&self) -> (r: Option<String>)
        ensures
            opt_view(r) == self.opt_url_spec(),
    ;
}

impl HasUrl for RssItem {
    open spec fn opt_url_spec(&self) -> Option<Seq<char>> {
        match self.link {
            None => None,
            Some(l) => url_norm(l@),
        }
    }

    fn get_url(&self) -> (r: Option<String>) {
        match &self.link {
            None => None,
            Some(l) => parse_url(l.as_str()),
        }
    }
}

impl HasUrl for AtomEntry {
    open spec fn opt_url_spec(&self) -> Option<Seq<char>> {
        match candidate_link(self@) {
            None => None,
            Some(l) => url_norm(l),
        }
    }

    fn get_url(&self) -> (r: Option<String>) {
        match self.candidate_link_ref() {
            None => None,
            Some(l) => parse_url(l.as_str()),
        }
    }
}

impl HasUrl for RssChannel {
    open spec fn opt_url_spec(&self) -> Option<Seq<char>> {
        url_norm(self.link@)
    }

    fn get_url(&self) -> (r: Option<String>) {
        parse_url(self.link.as_str())
    }
}

impl HasUrl for AtomFeed {
    open spec fn opt_url_spec(&self) -> Option<Seq<char>> {
        match self.base {
            None => None,
            Some(b) => url_norm(b@),
        }
    }

    fn get_url(&self) -> (r: Option<String>) {
        match &self.base {
            None => None,
            Some(b) => parse_url(b.as_str()),
        }
    }
}

} // verus!

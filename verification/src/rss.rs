//! The RSS-family schema: a plain model of a channel and its items, and the
//! capability accessors over them. RSS items expose no explicit unique
//! identifier, so one is derived from link, title and publication date text.

use vstd::prelude::*;
use vstd::string::StringExecFns;

use crate::article::ArticleError;
use crate::article::HasAuthor;
use crate::article::HasContent;
use crate::article::HasId;
use crate::article::HasItems;
use crate::article::HasPublishedTime;
use crate::article::HasSummary;
use crate::article::HasTitle;
use crate::article::HasUpdatedTime;
use crate::article::HasUrl;
use crate::article::UrlContext;
use crate::article::opt_view;
use crate::item_ext::Hashable;
use crate::item_ext::article_id;
use crate::item_ext::id_spec;
use crate::url_ext::parse_url;
use crate::url_ext::url_norm;

verus! {

/// An RSS channel item, reduced to the fields the capabilities read.
/// `guid` is the item's explicit unique identifier, where the document
/// carries one.
#[derive(Debug)]
pub struct RssItem {
    pub title: Option<String>,
    pub link: Option<String>,
    pub description: Option<String>,
    pub author: Option<String>,
    pub content: Option<String>,
    pub pub_date: Option<String>,
    pub guid: Option<String>,
}

/// The mathematical value of an RSS item.
pub struct RssItemV {
    pub title: Option<Seq<char>>,
    pub link: Option<Seq<char>>,
    pub description: Option<Seq<char>>,
    pub author: Option<Seq<char>>,
    pub content: Option<Seq<char>>,
    pub pub_date: Option<Seq<char>>,
    pub guid: Option<Seq<char>>,
}

impl View for RssItem {
    type V = RssItemV;

    open spec fn view(&self) -> RssItemV {
        RssItemV {
            title: opt_view(self.title),
            link: opt_view(self.link),
            description: opt_view(self.description),
            author: opt_view(self.author),
            content: opt_view(self.content),
            pub_date: opt_view(self.pub_date),
            guid: opt_view(self.guid),
        }
    }
}

/// An RSS channel: its mandatory title and link, and its items in document
/// order.
#[derive(Debug)]
pub struct RssChannel {
    pub title: String,
    pub link: String,
    pub items: Vec<RssItem>,
}

/// The mathematical value of an RSS channel.
pub struct RssChannelV {
    pub title: Seq<char>,
    pub link: Seq<char>,
    pub items: Seq<RssItemV>,
}

impl View for RssChannel {
    type V = RssChannelV;

    open spec fn view(&self) -> RssChannelV {
        RssChannelV {
            title: self.title@,
            link: self.link@,
            items: self.items@.map_values(|it: RssItem| it@),
        }
    }
}

/// The UTC RFC 3339 rendering of RFC 2822 date text, absent when the text
/// does not parse as such a date.
pub uninterp spec fn rfc2822_utc(s: Seq<char>) -> Option<Seq<char>>;

/// Relies on chrono's `DateTime::parse_from_rfc2822` to parse RFC 2822 date
/// text, and on `DateTime::to_rfc3339` to render it in UTC: the result is a
/// function of the text alone.
#[verifier::external_body]
pub(crate) fn parse_rfc2822(s: &str) -> (r: Option<String>)
    ensures
        r is Some <==> rfc2822_utc(s@) is Some,
        r matches Some(t) ==> Some(t@) == rfc2822_utc(s@),
{
    match chrono::DateTime::parse_from_rfc2822(s) {
        Ok(t) => Some(t.with_timezone(&chrono::Utc).to_rfc3339()),
        Err(_) => None,
    }
}

/// The text of an optional field, or empty when absent.
pub open spec fn or_empty(o: Option<Seq<char>>) -> Seq<char> {
    match o {
        Some(s) => s,
        None => Seq::empty(),
    }
}

/// Borrow an optional field's text, empty when absent.
pub(crate) fn str_or_empty(o: &Option<String>) -> (r: &str)
    ensures
        r@ == or_empty(opt_view(*o)),
{
    match o {
        Some(s) => s.as_str(),
        None => {
            proof {
                reveal_strlit("");
                assert(""@ =~= Seq::<char>::empty());
            }
            ""
        },
    }
}

impl HasId for RssItem {
    /// An explicit unique identifier takes precedence and no hash is
    /// computed; otherwise the identifier is derived from link, title and
    /// publication date text.
    open spec fn id_spec(&self) -> Seq<char> {
        match self@.guid {
            Some(g) => g,
            None => id_spec(or_empty(self@.link), or_empty(self@.title), or_empty(self@.pub_date)),
        }
    }

    fn get_id(&self) -> (r: String) {
        match &self.guid {
            Some(g) => g.clone(),
            None => article_id(
                str_or_empty(&self.link),
                str_or_empty(&self.title),
                str_or_empty(&self.pub_date),
            ),
        }
    }
}

impl Hashable for RssItem {
    /// The derived content hash of the item's identifying text, whether or
    /// not the item also carries an explicit identifier.
    open spec fn hash_spec(&self) -> Seq<char> {
        id_spec(or_empty(self@.link), or_empty(self@.title), or_empty(self@.pub_date))
    }

    fn hash(&self) -> (r: String) {
        article_id(
            str_or_empty(&self.link),
            str_or_empty(&self.title),
            str_or_empty(&self.pub_date),
        )
    }
}

impl HasUrl for RssItem {
    open spec fn url_spec(&self) -> Result<Option<Seq<char>>, ()> {
        match self.link {
            None => Ok(None),
            Some(l) => match url_norm(l@) {
                Some(u) => Ok(Some(u)),
                None => Err(()),
            },
        }
    }

    fn get_url(&self) -> (r: Result<Option<String>, ArticleError>) {
        match &self.link {
            None => Ok(None),
            Some(l) => match parse_url(l.as_str()) {
                Some(u) => Ok(Some(u)),
                None => Err(ArticleError::FailedToParseUrl { context: UrlContext::EntryUrl }),
            },
        }
    }
}

impl HasTitle for RssItem {
    open spec fn title_spec(&self) -> Seq<char> {
        or_empty(self@.title)
    }

    fn get_title(&self) -> (r: String) {
        match &self.title {
            Some(t) => t.clone(),
            None => String::new(),
        }
    }
}

impl HasAuthor for RssItem {
    open spec fn author_spec(&self) -> Seq<char> {
        or_empty(self@.author)
    }

    fn get_author(&self) -> (r: String) {
        match &self.author {
            Some(a) => a.clone(),
            None => String::new(),
        }
    }
}

impl HasContent for RssItem {
    open spec fn content_spec(&self) -> Option<Seq<char>> {
        self@.content
    }

    fn get_content(&self) -> (r: Option<String>) {
        match &self.content {
            Some(c) => Some(c.clone()),
            None => None,
        }
    }
}

impl HasSummary for RssItem {
    open spec fn summary_spec(&self) -> Option<Seq<char>> {
        self@.description
    }

    fn get_summary(&self) -> (r: Option<String>) {
        match &self.description {
            Some(d) => Some(d.clone()),
            None => None,
        }
    }
}

impl HasPublishedTime for RssItem {
    open spec fn published_spec(&self) -> Result<Option<Seq<char>>, ()> {
        match self.pub_date {
            None => Ok(None),
            Some(d) => match rfc2822_utc(d@) {
                Some(t) => Ok(Some(t)),
                None => Err(()),
            },
        }
    }

    fn get_published_time(&self) -> (r: Result<Option<String>, ArticleError>) {
        match &self.pub_date {
            None => Ok(None),
            Some(d) => match parse_rfc2822(d.as_str()) {
                Some(t) => Ok(Some(t)),
                None => Err(ArticleError::FailedToParseTime),
            },
        }
    }
}

impl HasUpdatedTime for RssItem {
    /// RSS has no separate updated time; it is synthesized as equal to the
    /// publication time.
    open spec fn updated_spec(&self) -> Result<Option<Seq<char>>, ()> {
        self.published_spec()
    }

    fn get_updated_time(&self) -> (r: Result<Option<String>, ArticleError>) {
        self.get_published_time()
    }
}

impl HasTitle for RssChannel {
    open spec fn title_spec(&self) -> Seq<char> {
        self.title@
    }

    fn get_title(&self) -> (r: String) {
        self.title.clone()
    }
}

impl HasItems for RssChannel {
    type Item = RssItem;

    open spec fn items_spec(&self) -> Seq<RssItem> {
        self.items@
    }

    fn get_items(&self) -> (r: &Vec<RssItem>) {
        &self.items
    }
}

} // verus!

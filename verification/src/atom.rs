//! The Atom-family schema: a plain model of a feed and its entries, and the
//! capability accessors over them. Atom entries carry a mandatory explicit
//! identifier and a mandatory updated time.

use vstd::prelude::*;
use vstd::string::StringExecFns;

use crate::article::ArticleError;
use crate::article::HasAuthor;
use crate::article::HasContent;
use crate::article::HasId;
use crate::article::HasItems;
use crate::article::HasPublishedTime;
use crate::article::HasSummary;
use crate::article::HasTitle;
use crate::article::HasUpdatedTime;
use crate::article::HasUrl;
use crate::article::UrlContext;
use crate::article::opt_view;
use crate::item_ext::Hashable;
use crate::item_ext::article_id;
use crate::item_ext::id_spec;
use crate::rss::or_empty;
use crate::url_ext::parse_url;
use crate::url_ext::url_norm;

verus! {

/// The inline content block of an Atom entry, reduced to the fields the
/// capabilities read: its base location, its declared source, its value.
#[derive(Debug)]
pub struct AtomContentInfo {
    pub base: Option<String>,
    pub src: Option<String>,
    pub value: Option<String>,
}

/// The mathematical value of an Atom content block.
pub struct AtomContentV {
    pub base: Option<Seq<char>>,
    pub src: Option<Seq<char>>,
    pub value: Option<Seq<char>>,
}

impl View for AtomContentInfo {
    type V = AtomContentV;

    open spec fn view(&self) -> AtomContentV {
        AtomContentV {
            base: opt_view(self.base),
            src: opt_view(self.src),
            value: opt_view(self.value),
        }
    }
}

/// An Atom entry, reduced to the fields the capabilities read. Timestamps
/// are carried as RFC 3339 text rendered in UTC; `updated` is mandatory in
/// this schema, `published` is optional.
#[derive(Debug)]
pub struct AtomEntry {
    pub id: String,
    pub title: String,
    pub links: Vec<String>,
    pub content: Option<AtomContentInfo>,
    pub updated: String,
    pub published: Option<String>,
    pub authors: Vec<String>,
    pub summary: Option<String>,
}

/// The mathematical value of an Atom entry.
pub struct AtomEntryV {
    pub id: Seq<char>,
    pub title: Seq<char>,
    pub links: Seq<Seq<char>>,
    pub content: Option<AtomContentV>,
    pub updated: Seq<char>,
    pub published: Option<Seq<char>>,
    pub authors: Seq<Seq<char>>,
    pub summary: Option<Seq<char>>,
}

impl View for AtomEntry {
    type V = AtomEntryV;

    open spec fn view(&self) -> AtomEntryV {
        AtomEntryV {
            id: self.id@,
            title: self.title@,
            links: self.links@.map_values(|l: String| l@),
            content: match self.content {
                Some(c) => Some(c@),
                None => None,
            },
            updated: self.updated@,
            published: opt_view(self.published),
            authors: self.authors@.map_values(|a: String| a@),
            summary: opt_view(self.summary),
        }
    }
}

/// An Atom feed: its mandatory title, its optional base location, and its
/// entries in document order.
#[derive(Debug)]
pub struct AtomFeed {
    pub title: String,
    pub base: Option<String>,
    pub entries: Vec<AtomEntry>,
}

/// The mathematical value of an Atom feed.
pub struct AtomFeedV {
    pub title: Seq<char>,
    pub base: Option<Seq<char>>,
    pub entries: Seq<AtomEntryV>,
}

impl View for AtomFeed {
    type V = AtomFeedV;

    open spec fn view(&self) -> AtomFeedV {
        AtomFeedV {
            title: self.title@,
            base: opt_view(self.base),
            entries: self.entries@.map_values(|e: AtomEntry| e@),
        }
    }
}

/// The concatenation of a sequence of names, in order.
pub open spec fn joined(ss: Seq<Seq<char>>) -> Seq<char>
    decreases ss.len(),
{
    if ss.len() == 0 {
        Seq::empty()
    } else {
        joined(ss.drop_last()) + ss.last()
    }
}

impl HasId for AtomEntry {
    /// Atom entries carry an explicit unique identifier; it takes precedence
    /// and no hash is derived.
    open spec fn id_spec(&self) -> Seq<char> {
        self.id@
    }

    fn get_id(&self) -> (r: String) {
        self.id.clone()
    }
}

/// The first relation link of an entry, absent when it lists none.
pub open spec fn first_link(e: AtomEntryV) -> Option<Seq<char>> {
    if e.links.len() > 0 {
        Some(e.links[0])
    } else {
        None
    }
}

/// The candidate link text of an entry: the inline content's base location,
/// then its declared source, then the first relation link. An entry without
/// inline content still resolves through its first relation link.
pub open spec fn candidate_link(e: AtomEntryV) -> Option<Seq<char>> {
    match e.content {
        None => first_link(e),
        Some(c) => match c.base {
            Some(b) => Some(b),
            None => match c.src {
                Some(s) => Some(s),
                None => first_link(e),
            },
        },
    }
}

impl AtomEntry {
    /// Borrow the first relation link, absent when none are listed.
    pub(crate) fn first_link_ref(&self) -> (r: Option<&String>)
        ensures
            r is Some <==> first_link(self@) is Some,
            r matches Some(l) ==> Some(l@) == first_link(self@),
    {
        if self.links.len() > 0 {
            Some(&self.links[0])
        } else {
            None
        }
    }

    /// Borrow this entry's candidate link text, in the capability's
    /// preference order.
    pub(crate) fn candidate_link_ref(&self) -> (r: Option<&String>)
        ensures
            r is Some <==> candidate_link(self@) is Some,
            r matches Some(l) ==> Some(l@) == candidate_link(self@),
    {
        match &self.content {
            Some(c) => match &c.base {
                Some(b) => Some(b),
                None => match &c.src {
                    Some(s) => Some(s),
                    None => self.first_link_ref(),
                },
            },
            None => self.first_link_ref(),
        }
    }
}

impl HasUrl for AtomEntry {
    open spec fn url_spec(&self) -> Result<Option<Seq<char>>, ()> {
        match candidate_link(self@) {
            None => Ok(None),
            Some(l) => match url_norm(l) {
                Some(u) => Ok(Some(u)),
                None => Err(()),
            },
        }
    }

    fn get_url(&self) -> (r: Result<Option<String>, ArticleError>) {
        match self.candidate_link_ref() {
            None => Ok(None),
            Some(l) => match parse_url(l.as_str()) {
                Some(u) => Ok(Some(u)),
                None => Err(ArticleError::FailedToParseUrl { context: UrlContext::EntryUrl }),
            },
        }
    }
}

impl HasContent for AtomEntry {
    open spec fn content_spec(&self) -> Option<Seq<char>> {
        match self@.content {
            Some(c) => c.value,
            None => None,
        }
    }

    fn get_content(&self) -> (r: Option<String>) {
        match &self.content {
            Some(c) => match &c.value {
                Some(v) => Some(v.clone()),
                None => None,
            },
            None => None,
        }
    }
}

impl HasUpdatedTime for AtomEntry {
    /// The updated time is mandatory in this schema and already carried as
    /// valid timestamp text.
    open spec fn updated_spec(&self) -> Result<Option<Seq<char>>, ()> {
        Ok(Some(self.updated@))
    }

    fn get_updated_time(&self) -> (r: Result<Option<String>, ArticleError>) {
        Ok(Some(self.updated.clone()))
    }
}

impl HasPublishedTime for AtomEntry {
    open spec fn published_spec(&self) -> Result<Option<Seq<char>>, ()> {
        Ok(opt_view(self.published))
    }

    fn get_published_time(&self) -> (r: Result<Option<String>, ArticleError>) {
        match &self.published {
            Some(t) => Ok(Some(t.clone())),
            None => Ok(None),
        }
    }
}

impl HasAuthor for AtomEntry {
    open spec fn author_spec(&self) -> Seq<char> {
        joined(self@.authors)
    }

    fn get_author(&self) -> (r: String) {
        let mut out = String::new();
        let mut i: usize = 0;
        while i < self.authors.len()
            invariant
                0 <= i <= self.authors@.len(),
                out@ == joined(self@.authors.subrange(0, i as int)),
            decreases self.authors@.len() - i,
        {
            out.append(self.authors[i].as_str());
            proof {
                assert(self@.authors.subrange(0, i + 1).drop_last() =~= self@.authors.subrange(
                    0,
                    i as int,
                ));
                assert(self@.authors.subrange(0, i + 1).last() == self@.authors[i as int]);
            }
            i = i + 1;
        }
        proof {
            assert(self@.authors.subrange(0, self@.authors.len() as int) =~= self@.authors);
        }
        out
    }
}

impl HasSummary for AtomEntry {
    open spec fn summary_spec(&self) -> Option<Seq<char>> {
        opt_view(self.summary)
    }

    fn get_summary(&self) -> (r: Option<String>) {
        match &self.summary {
            Some(s) => Some(s.clone()),
            None => None,
        }
    }
}

impl HasTitle for AtomEntry {
    open spec fn title_spec(&self) -> Seq<char> {
        self.title@
    }

    fn get_title(&self) -> (r: String) {
        self.title.clone()
    }
}

impl Hashable for AtomEntry {
    /// The content hash of an entry: over its first relation link, its title
    /// and its updated timestamp text.
    open spec fn hash_spec(&self) -> Seq<char> {
        id_spec(or_empty(first_link(self@)), self.title@, self.updated@)
    }

    fn hash(&self) -> (r: String) {
        let link: &str = if self.links.len() > 0 {
            self.links[0].as_str()
        } else {
            proof {
                reveal_strlit("");
                assert(""@ =~= Seq::<char>::empty());
            }
            ""
        };
        article_id(link, self.title.as_str(), self.updated.as_str())
    }
}

impl HasTitle for AtomFeed {
    open spec fn title_spec(&self) -> Seq<char> {
        self.title@
    }

    fn get_title(&self) -> (r: String) {
        self.title.clone()
    }
}

impl HasItems for AtomFeed {
    type Item = AtomEntry;

    open spec fn items_spec(&self) -> Seq<AtomEntry> {
        self.entries@
    }

    fn get_items(&self) -> (r: &Vec<AtomEntry>) {
        &self.entries
    }
}

} // verus!

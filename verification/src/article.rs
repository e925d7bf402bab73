//! The canonical article shape, the capability accessors that both feed
//! schemas implement, and the normalizer that maps a feed document onto a
//! sequence of summary-stage articles.

use vstd::prelude::*;

verus! {

/// The view of an `Option<String>` as an optional character sequence.
pub open spec fn opt_view(o: Option<String>) -> Option<Seq<char>> {
    match o {
        Some(s) => Some(s@),
        None => None,
    }
}

/// The mathematical value of a summary-stage article.
pub struct ArticleV {
    pub id: Seq<char>,
    pub url: Option<Seq<char>>,
    pub title: Seq<char>,
    pub author: Seq<char>,
    pub content: Option<Seq<char>>,
    pub summary: Option<Seq<char>>,
    pub published_at: Option<Seq<char>>,
    pub updated_at: Option<Seq<char>>,
}

/// A canonical article in the summary-only stage: it carries at most the
/// inline data its feed exposed. Upgrading it to a `FullTextArticle` consumes
/// it (see `Article::into_full_text`).
#[derive(Debug)]
pub struct Article {
    pub id: String,
    pub url: Option<String>,
    pub title: String,
    pub author: String,
    pub content: Option<String>,
    pub summary: Option<String>,
    pub published_at: Option<String>,
    pub updated_at: Option<String>,
}

impl View for Article {
    type V = ArticleV;

    open spec fn view(&self) -> ArticleV {
        ArticleV {
            id: self.id@,
            url: opt_view(self.url),
            title: self.title@,
            author: self.author@,
            content: opt_view(self.content),
            summary: opt_view(self.summary),
            published_at: opt_view(self.published_at),
            updated_at: opt_view(self.updated_at),
        }
    }
}

impl Article {
    /// Build a summary-stage article from its parts.
    pub fn new(
        id: String,
        url: Option<String>,
        title: String,
        author: String,
        content: Option<String>,
        summary: Option<String>,
        published_at: Option<String>,
        updated_at: Option<String>,
    ) -> (a: Article)
        ensures
            a@ == (ArticleV {
                id: id@,
                url: opt_view(url),
                title: title@,
                author: author@,
                content: opt_view(content),
                summary: opt_view(summary),
                published_at: opt_view(published_at),
                updated_at: opt_view(updated_at),
            }),
    {
        Article { id, url, title, author, content, summary, published_at, updated_at }
    }
}

/// The mathematical value of a full-text article.
pub struct FullTextArticleV {
    pub id: Seq<char>,
    pub url: Option<Seq<char>>,
    pub title: Seq<char>,
    pub author: Seq<char>,
    pub content: Seq<char>,
    pub summary: Option<Seq<char>>,
    pub published_at: Option<Seq<char>>,
    pub updated_at: Option<Seq<char>>,
}

/// A canonical article in the full-text stage: its content was fetched from
/// the article's own page. Only a summary-stage article with a resolvable
/// URL can reach this stage, and the transition consumes it.
#[derive(Debug)]
pub struct FullTextArticle {
    pub id: String,
    pub url: Option<String>,
    pub title: String,
    pub author: String,
    pub content: String,
    pub summary: Option<String>,
    pub published_at: Option<String>,
    pub updated_at: Option<String>,
}

impl View for FullTextArticle {
    type V = FullTextArticleV;

    open spec fn view(&self) -> FullTextArticleV {
        FullTextArticleV {
            id: self.id@,
            url: opt_view(self.url),
            title: self.title@,
            author: self.author@,
            content: self.content@,
            summary: opt_view(self.summary),
            published_at: opt_view(self.published_at),
            updated_at: opt_view(self.updated_at),
        }
    }
}

/// The full-text value that a summary-stage article and a fetched body yield:
/// the content is replaced, every other field is carried over unchanged.
pub open spec fn upgraded(a: ArticleV, content: Seq<char>) -> FullTextArticleV {
    FullTextArticleV {
        id: a.id,
        url: a.url,
        title: a.title,
        author: a.author,
        content: content,
        summary: a.summary,
        published_at: a.published_at,
        updated_at: a.updated_at,
    }
}

impl Article {
    /// The one stage transition: consume this summary-stage article and the
    /// content fetched from its page, producing the full-text article.
    /// Only articles with a resolvable URL may transition.
    pub fn into_full_text(self, content: String) -> (r: FullTextArticle)
        requires
            self@.url is Some,
        ensures
            r@ == upgraded(self@, content@),
    {
        FullTextArticle {
            id: self.id,
            url: self.url,
            title: self.title,
            author: self.author,
            content,
            summary: self.summary,
            published_at: self.published_at,
            updated_at: self.updated_at,
        }
    }
}

/// Which URL of a feed document failed to parse.
#[derive(Debug)]
pub enum UrlContext {
    FeedUrl,
    EntryUrl,
}

/// A source item of either schema, kept for error reporting.
#[derive(Debug)]
pub enum FeedItem {
    Rss(Box<crate::rss::RssItem>),
    Atom(Box<crate::atom::AtomEntry>),
}

/// A per-field failure surfaced by the capability adapter layer. The
/// normalizer contains these at the field: the item is kept and the
/// malformed field degrades to absent.
#[derive(Debug)]
pub enum ArticleError {
    FailedToParseItem { item: FeedItem },
    FailedToParseUrl { context: UrlContext },
    FailedToParseTime,
}

pub trait HasId {
    /// The stable identifier this item exposes or derives.
    spec fn id_spec(&self) -> Seq<char>;

    fn get_id(&self) -> (r: String)
        ensures
            r@ == self.id_spec(),
    ;
}

pub trait HasUrl {
    /// The item's best-effort direct link: `Ok(None)` when no candidate link
    /// is present, `Err` when a candidate is present but malformed.
    spec fn url_spec(&self) -> Result<Option<Seq<char>>, ()>;

    fn get_url(&self) -> (r: Result<Option<String>, ArticleError>)
        ensures
            r matches Ok(u) ==> self.url_spec() == Ok::<Option<Seq<char>>, ()>(opt_view(u)),
            r is Err ==> self.url_spec() is Err,
            r matches Err(e) ==> e matches ArticleError::FailedToParseUrl {
                context: UrlContext::EntryUrl,
            },
    ;
}

pub trait HasTitle {
    spec fn title_spec(&self) -> Seq<char>;

    fn get_title(&self) -> (r: String)
        ensures
            r@ == self.title_spec(),
    ;
}

pub trait HasContent {
    /// The literal inline body, absent where the schema embeds none.
    spec fn content_spec(&self) -> Option<Seq<char>>;

    fn get_content(&self) -> (r: Option<String>)
        ensures
            opt_view(r) == self.content_spec(),
    ;
}

pub trait HasAuthor {
    /// The concatenation of all listed author names, empty if none.
    spec fn author_spec(&self) -> Seq<char>;

    fn get_author(&self) -> (r: String)
        ensures
            r@ == self.author_spec(),
    ;
}

pub trait HasSummary {
    spec fn summary_spec(&self) -> Option<Seq<char>>;

    fn get_summary(&self) -> (r: Option<String>)
        ensures
            opt_view(r) == self.summary_spec(),
    ;
}

pub trait HasPublishedTime {
    /// The publication timestamp: `Ok(None)` when the schema carries none,
    /// `Err` when its date text is malformed.
    spec fn published_spec(&self) -> Result<Option<Seq<char>>, ()>;

    fn get_published_time(&self) -> (r: Result<Option<String>, ArticleError>)
        ensures
            r matches Ok(t) ==> self.published_spec() == Ok::<Option<Seq<char>>, ()>(opt_view(t)),
            r is Err ==> self.published_spec() is Err,
            r matches Err(e) ==> e is FailedToParseTime,
    ;
}

pub trait HasUpdatedTime {
    spec fn updated_spec(&self) -> Result<Option<Seq<char>>, ()>;

    fn get_updated_time(&self) -> (r: Result<Option<String>, ArticleError>)
        ensures
            r matches Ok(t) ==> self.updated_spec() == Ok::<Option<Seq<char>>, ()>(opt_view(t)),
            r is Err ==> self.updated_spec() is Err,
            r matches Err(e) ==> e is FailedToParseTime,
    ;
}

/// A malformed field degrades to absent; the item itself is kept.
pub open spec fn degraded(r: Result<Option<Seq<char>>, ()>) -> Option<Seq<char>> {
    match r {
        Ok(v) => v,
        Err(_) => None,
    }
}

/// The canonical record one feed item normalizes to: each field is what the
/// item's accessor capability yields, with malformed URL or date text
/// degraded to absent.
pub open spec fn normalized_article<
    T: HasId + HasUrl + HasTitle + HasAuthor + HasContent + HasSummary + HasPublishedTime + HasUpdatedTime,
>(t: T) -> ArticleV {
    ArticleV {
        id: t.id_spec(),
        url: degraded(t.url_spec()),
        title: t.title_spec(),
        author: t.author_spec(),
        content: t.content_spec(),
        summary: t.summary_spec(),
        published_at: degraded(t.published_spec()),
        updated_at: degraded(t.updated_spec()),
    }
}

/// Anything with the full item-level capability set normalizes to a
/// canonical article through one generic routine.
pub trait ToArticle: Sized + HasId + HasUrl + HasTitle + HasAuthor + HasContent + HasSummary + HasPublishedTime + HasUpdatedTime {
    fn to_article(&self) -> (a: Article)
        ensures
            a@ == normalized_article(*self),
    ;
}

impl<
    T: Sized + HasId + HasUrl + HasTitle + HasAuthor + HasContent + HasSummary + HasPublishedTime + HasUpdatedTime,
> ToArticle for T {
    fn to_article(&self) -> (a: Article) {
        let id = self.get_id();
        let url = match self.get_url() {
            Ok(u) => u,
            Err(_) => None,
        };
        let title = self.get_title();
        let author = self.get_author();
        let content = self.get_content();
        let summary = self.get_summary();
        let published_at = match self.get_published_time() {
            Ok(t) => t,
            Err(_) => None,
        };
        let updated_at = match self.get_updated_time() {
            Ok(t) => t,
            Err(_) => None,
        };
        Article { id, url, title, author, content, summary, published_at, updated_at }
    }
}

pub trait HasItems {
    type Item: ToArticle;

    /// The document's items, in source order.
    spec fn items_spec(&self) -> Seq<Self::Item>;

    fn get_items(&self) -> (r: &Vec<Self::Item>)
        ensures
            r@ == self.items_spec(),
    ;
}

/// The mathematical value of a normalized batch.
pub struct ArticlesV {
    pub source_url: Option<Seq<char>>,
    pub source_title: Option<Seq<char>>,
    pub articles: Seq<ArticleV>,
}

/// The batch a feed document normalizes to: one canonical article per item,
/// in source order, each inheriting the feed's own URL and title.
pub open spec fn normalized_feed<T: HasTitle + crate::url_ext::HasUrl + HasItems>(
    source: T,
) -> ArticlesV {
    ArticlesV {
        source_url: source.opt_url_spec(),
        source_title: Some(source.title_spec()),
        articles: source.items_spec().map_values(|it: T::Item| normalized_article(it)),
    }
}

/// Normalizing a document with `K` items yields exactly `K` summary-stage
/// articles in source order — the article at each position is normalized
/// from the item at the same position — however malformed single items'
/// dates or links are.
pub proof fn lemma_normalize_count_and_order<T: HasTitle + crate::url_ext::HasUrl + HasItems>(
    source: T,
)
    ensures
        normalized_feed(source).articles.len() == source.items_spec().len(),
        forall|i: int|
            0 <= i < source.items_spec().len() ==> normalized_feed(source).articles[i]
                == normalized_article(source.items_spec()[i]),
{
}

/// A batch of canonical articles together with the feed they came from.
#[derive(Debug)]
pub struct Articles {
    pub source_url: Option<String>,
    pub source_title: Option<String>,
    pub articles: Vec<Article>,
}

impl View for Articles {
    type V = ArticlesV;

    open spec fn view(&self) -> ArticlesV {
        ArticlesV {
            source_url: opt_view(self.source_url),
            source_title: opt_view(self.source_title),
            articles: self.articles@.map_values(|a: Article| a@),
        }
    }
}

impl Articles {
    /// Normalize one feed document: every item yields exactly one
    /// summary-stage article, in source order, whatever malformed dates or
    /// links single items hold; a feed-level URL parse failure degrades the
    /// source URL to absent.
    pub fn parse<T: HasTitle + crate::url_ext::HasUrl + HasItems>(source: T) -> (r: Result<
        Articles,
        ArticleError,
    >)
        ensures
            r is Ok,
            r matches Ok(a) ==> a@ == normalized_feed(source),
    {
        let source_url = crate::url_ext::HasUrl::get_url(&source);
        let source_title = Some(source.get_title());
        let items = source.get_items();
        let mut articles: Vec<Article> = Vec::new();
        let mut i: usize = 0;
        while i < items.len()
            invariant
                items@ == source.items_spec(),
                0 <= i <= items@.len(),
                articles@.len() == i,
                forall|j: int|
                    0 <= j < i ==> #[trigger] articles@[j]@ == normalized_article(items@[j]),
            decreases items@.len() - i,
        {
            articles.push(items[i].to_article());
            i = i + 1;
        }
        proof {
            assert(articles@.map_values(|a: Article| a@) =~= source.items_spec().map_values(
                |it: T::Item| normalized_article(it),
            ));
        }
        Ok(Articles { source_url, source_title, articles })
    }
}

} // verus!

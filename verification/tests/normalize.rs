//! Normalization end to end: feed text in, canonical summary-stage articles
//! out, with per-item failures degraded, never dropped.

use feedflow::article::ArticleError;
use feedflow::article::HasPublishedTime;
use feedflow::article::HasUrl;
use feedflow::article::ToArticle;
use feedflow::article::UrlContext;
use feedflow::atom::AtomEntry;
use feedflow::feed_parser::FeedParser;
use feedflow::feed_parser::FeedParserError;
use feedflow::article::HasId;
use feedflow::item_ext::Hashable;
use feedflow::rss::RssItem;

fn rss_two_items() -> String {
    let mut s = String::new();
    s.push_str("<rss version=\"2.0\"><channel>");
    s.push_str("<title>Feed</title><link>http://feed.example/</link><description>d</description>");
    s.push_str("<item><title>A</title><link>http://a</link>");
    s.push_str("<pubDate>Mon, 01 Jan 2024 00:00:00 GMT</pubDate></item>");
    s.push_str("<item><title>B</title><link>http://b</link>");
    s.push_str("<pubDate>Tue, 02 Jan 2024 00:00:00 GMT</pubDate></item>");
    s.push_str("</channel></rss>");
    s
}

fn parse_articles(text: &str) -> feedflow::article::Articles {
    let parser = FeedParser::from_text(text).expect("feed should be recognized");
    parser.parse().expect("normalization never fails")
}

#[test]
fn two_item_rss_yields_two_articles_with_stable_distinct_ids() {
    let doc = rss_two_items();
    let arts = parse_articles(&doc);
    assert_eq!(arts.articles.len(), 2);
    assert_eq!(arts.articles[0].title, "A");
    assert_eq!(arts.articles[1].title, "B");
    assert_eq!(arts.articles[0].url.as_deref(), Some("http://a/"));
    assert_eq!(arts.articles[1].url.as_deref(), Some("http://b/"));
    assert_ne!(arts.articles[0].id, arts.articles[1].id);

    let again = parse_articles(&doc);
    assert_eq!(arts.articles[0].id, again.articles[0].id);
    assert_eq!(arts.articles[1].id, again.articles[1].id);
}

#[test]
fn feed_level_fields_are_inherited() {
    let doc = rss_two_items();
    let arts = parse_articles(&doc);
    assert_eq!(arts.source_title.as_deref(), Some("Feed"));
    assert_eq!(arts.source_url.as_deref(), Some("http://feed.example/"));
}

#[test]
fn malformed_fields_degrade_but_items_are_kept() {
    let mut s = String::new();
    s.push_str("<rss version=\"2.0\"><channel>");
    s.push_str("<title>Feed</title><link>http://feed.example/</link><description>d</description>");
    s.push_str("<item><title>Good</title><link>http://good/</link>");
    s.push_str("<pubDate>Mon, 01 Jan 2024 00:00:00 GMT</pubDate></item>");
    s.push_str("<item><title>BadDate</title><link>http://ok/</link>");
    s.push_str("<pubDate>not a date</pubDate></item>");
    s.push_str("<item><title>BadLink</title><link>::not a url::</link></item>");
    s.push_str("</channel></rss>");
    let arts = parse_articles(&s);
    assert_eq!(arts.articles.len(), 3);
    assert_eq!(arts.articles[0].title, "Good");
    assert_eq!(arts.articles[1].title, "BadDate");
    assert_eq!(arts.articles[2].title, "BadLink");
    assert_eq!(arts.articles[1].published_at, None);
    assert_eq!(arts.articles[1].url.as_deref(), Some("http://ok/"));
    assert_eq!(arts.articles[2].url, None);
}

#[test]
fn item_without_link_has_no_url() {
    let mut s = String::new();
    s.push_str("<rss version=\"2.0\"><channel>");
    s.push_str("<title>Feed</title><link>http://feed.example/</link><description>d</description>");
    s.push_str("<item><title>NoLink</title></item>");
    s.push_str("</channel></rss>");
    let arts = parse_articles(&s);
    assert_eq!(arts.articles.len(), 1);
    assert_eq!(arts.articles[0].url, None);
}

#[test]
fn rss_updated_time_is_synthesized_from_published() {
    let doc = rss_two_items();
    let arts = parse_articles(&doc);
    assert_eq!(
        arts.articles[0].published_at.as_deref(),
        Some("2024-01-01T00:00:00+00:00")
    );
    assert_eq!(arts.articles[0].published_at, arts.articles[0].updated_at);
}

#[test]
fn unrecognized_text_is_a_format_error() {
    let r = FeedParser::from_text("this is not xml at all");
    match r {
        Err(FeedParserError::InvalidFeed { content }) => {
            assert_eq!(content, "this is not xml at all");
        }
        Ok(_) => panic!("garbage text must be rejected"),
    }
}

fn atom_doc() -> String {
    let mut s = String::new();
    s.push_str("<feed xmlns=\"http://www.w3.org/2005/Atom\">");
    s.push_str("<title>AF</title><id>feed-id</id><updated>2024-01-01T00:00:00Z</updated>");
    s.push_str("<entry><title>E1</title><id>entry-1</id>");
    s.push_str("<updated>2024-01-02T03:04:05Z</updated>");
    s.push_str("<author><name>Ann</name></author><author><name>Bob</name></author>");
    s.push_str("<summary>sum</summary>");
    s.push_str("<content type=\"html\" xml:base=\"http://base.example/post\">Hello</content>");
    s.push_str("<link href=\"http://link.example/1\"/>");
    s.push_str("</entry></feed>");
    s
}

#[test]
fn atom_entry_end_to_end() {
    let doc = atom_doc();
    let arts = parse_articles(&doc);
    assert_eq!(arts.articles.len(), 1);
    let a = &arts.articles[0];
    assert_eq!(a.id, "entry-1");
    assert_eq!(a.title, "E1");
    assert_eq!(a.author, "AnnBob");
    assert_eq!(a.summary.as_deref(), Some("sum"));
    assert_eq!(a.content.as_deref(), Some("Hello"));
    assert_eq!(a.url.as_deref(), Some("http://base.example/post"));
    assert_eq!(a.updated_at.as_deref(), Some("2024-01-02T03:04:05+00:00"));
    assert_eq!(a.published_at, None);
    assert_eq!(arts.source_title.as_deref(), Some("AF"));
}

#[test]
fn adapter_surfaces_url_field_error() {
    let item = RssItem {
        title: None,
        link: Some(String::from("::bad url::")),
        description: None,
        author: None,
        content: None,
        pub_date: None,
        guid: None,
    };
    let r = HasUrl::get_url(&item);
    assert!(matches!(
        r,
        Err(ArticleError::FailedToParseUrl { context: UrlContext::EntryUrl })
    ));
    let article = item.to_article();
    assert_eq!(article.url, None);
}

#[test]
fn adapter_surfaces_time_field_error() {
    let item = RssItem {
        title: None,
        link: None,
        description: None,
        author: None,
        content: None,
        pub_date: Some(String::from("yesterday-ish")),
        guid: None,
    };
    let r = item.get_published_time();
    assert!(matches!(r, Err(ArticleError::FailedToParseTime)));
    let article = item.to_article();
    assert_eq!(article.published_at, None);
}

#[test]
fn atom_entry_hash_uses_first_link_title_and_updated() {
    let entry = AtomEntry {
        id: String::from("entry-1"),
        title: String::from("E1"),
        links: vec![String::from("http://link.example/1")],
        content: None,
        updated: String::from("2024-01-02T03:04:05+00:00"),
        published: None,
        authors: vec![],
        summary: None,
    };
    assert_eq!(
        entry.hash(),
        feedflow::item_ext::article_id(
            "http://link.example/1",
            "E1",
            "2024-01-02T03:04:05+00:00"
        )
    );
}

#[test]
fn explicit_guid_takes_precedence_over_derived_hash() {
    let mut s = String::new();
    s.push_str("<rss version=\"2.0\"><channel>");
    s.push_str("<title>Feed</title><link>http://feed.example/</link><description>d</description>");
    s.push_str("<item><title>WithGuid</title><link>http://a</link>");
    s.push_str("<guid>tag:example,2024:one</guid>");
    s.push_str("<pubDate>Mon, 01 Jan 2024 00:00:00 GMT</pubDate></item>");
    s.push_str("<item><title>WithoutGuid</title><link>http://b</link></item>");
    s.push_str("</channel></rss>");
    let arts = parse_articles(&s);
    assert_eq!(arts.articles.len(), 2);
    assert_eq!(arts.articles[0].id, "tag:example,2024:one");
    assert_eq!(
        arts.articles[1].id,
        feedflow::item_ext::article_id("http://b", "WithoutGuid", "")
    );
}

#[test]
fn guid_does_not_change_the_derived_hash() {
    let item = RssItem {
        title: Some(String::from("T")),
        link: Some(String::from("http://a/")),
        description: None,
        author: None,
        content: None,
        pub_date: None,
        guid: Some(String::from("explicit-id")),
    };
    assert_eq!(item.get_id(), "explicit-id");
    assert_eq!(item.hash(), feedflow::item_ext::article_id("http://a/", "T", ""));
}

#[test]
fn atom_entry_without_content_resolves_first_relation_link() {
    let mut s = String::new();
    s.push_str("<feed xmlns=\"http://www.w3.org/2005/Atom\">");
    s.push_str("<title>AF</title><id>feed-id</id><updated>2024-01-01T00:00:00Z</updated>");
    s.push_str("<entry><title>E1</title><id>entry-1</id>");
    s.push_str("<updated>2024-01-02T03:04:05Z</updated>");
    s.push_str("<link href=\"http://link.example/1\"/>");
    s.push_str("</entry></feed>");
    let arts = parse_articles(&s);
    assert_eq!(arts.articles.len(), 1);
    assert_eq!(arts.articles[0].url.as_deref(), Some("http://link.example/1"));
    assert_eq!(arts.articles[0].content, None);
}

#[test]
fn atom_timestamps_are_rendered_in_utc() {
    let mut s = String::new();
    s.push_str("<feed xmlns=\"http://www.w3.org/2005/Atom\">");
    s.push_str("<title>AF</title><id>feed-id</id><updated>2024-01-01T00:00:00Z</updated>");
    s.push_str("<entry><title>E1</title><id>entry-1</id>");
    s.push_str("<updated>2024-01-02T03:04:05+02:00</updated>");
    s.push_str("<published>2024-01-01T12:00:00-05:00</published>");
    s.push_str("</entry></feed>");
    let arts = parse_articles(&s);
    assert_eq!(arts.articles.len(), 1);
    assert_eq!(
        arts.articles[0].updated_at.as_deref(),
        Some("2024-01-02T01:04:05+00:00")
    );
    assert_eq!(
        arts.articles[0].published_at.as_deref(),
        Some("2024-01-01T17:00:00+00:00")
    );
}

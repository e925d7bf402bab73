//! The enrichment pipeline driven synchronously: partition, permit-gated
//! dispatch, out-of-order completion, and assembly.

use feedflow::article::Article;
use feedflow::article::FullTextArticle;
use feedflow::content::HttpContent;
use feedflow::upgrade::UpgradeBatch;
use feedflow::upgrade::UpgradeError;

fn summary(id: &str, url: Option<&str>) -> Article {
    Article::new(
        String::from(id),
        url.map(String::from),
        String::from("title"),
        String::from(""),
        None,
        None,
        None,
        None,
    )
}

fn ok_body(text: &str) -> Result<HttpContent, UpgradeError> {
    Ok(HttpContent::new(String::from(text)))
}

/// Run a whole batch serially, answering each request with `responses[key]`.
fn run_to_completion(
    articles: Vec<Article>,
    limit: usize,
    responses: &[Result<&str, UpgradeError>],
) -> Vec<Result<FullTextArticle, UpgradeError>> {
    let mut batch = UpgradeBatch::new(articles, limit);
    loop {
        match batch.next_fetch() {
            Some(req) => {
                let outcome = match responses[req.key] {
                    Ok(text) => ok_body(text),
                    Err(e) => Err(e),
                };
                assert!(batch.complete_fetch(req.key, outcome));
            }
            None => {
                if batch.is_done() {
                    break;
                }
                panic!("no fetch handed out and batch not done");
            }
        }
    }
    batch.into_results()
}

#[test]
fn articles_without_url_are_excluded() {
    let arts = vec![summary("one", None), summary("two", Some("http://b/"))];
    let results = run_to_completion(arts, 4, &[Ok("body")]);
    assert_eq!(results.len(), 1);
    let full = results[0].as_ref().expect("the URL-bearing article upgrades");
    assert_eq!(full.id, "two");
    assert_eq!(full.content, "body");
}

#[test]
fn upgrade_never_exceeds_url_bearing_count() {
    let arts = vec![
        summary("a", Some("http://a/")),
        summary("b", None),
        summary("c", Some("http://c/")),
        summary("d", None),
    ];
    let results = run_to_completion(arts, 8, &[Ok("ca"), Ok("cc")]);
    assert_eq!(results.len(), 2);
    let ok_count = results.iter().filter(|r| r.is_ok()).count();
    assert!(ok_count <= 2);
}

#[test]
fn partial_failure_is_per_article() {
    let arts = vec![
        summary("a", Some("http://a/")),
        summary("b", Some("http://b/")),
    ];
    let mut batch = UpgradeBatch::new(arts, 2);
    let ra = batch.next_fetch().expect("first task");
    let rb = batch.next_fetch().expect("second task");
    assert_eq!(ra.url, "http://a/");
    assert_eq!(rb.url, "http://b/");
    // b's page fails first, a's succeeds later: out-of-order completion.
    assert!(batch.complete_fetch(rb.key, Err(UpgradeError::Fetch)));
    assert!(batch.complete_fetch(ra.key, ok_body("content of a")));
    assert!(batch.is_done());
    let results = batch.into_results();
    assert_eq!(results.len(), 2);
    let full = results[0].as_ref().expect("a upgrades");
    assert_eq!(full.id, "a");
    assert_eq!(full.content, "content of a");
    assert!(matches!(results[1], Err(UpgradeError::Fetch)));
}

#[test]
fn extraction_failure_is_recorded() {
    let arts = vec![summary("a", Some("http://a/"))];
    let results = run_to_completion(arts, 1, &[Err(UpgradeError::Extraction)]);
    assert_eq!(results.len(), 1);
    assert!(matches!(results[0], Err(UpgradeError::Extraction)));
}

#[test]
fn permit_ceiling_gates_dispatch() {
    let arts = vec![
        summary("a", Some("http://a/")),
        summary("b", Some("http://b/")),
        summary("c", Some("http://c/")),
    ];
    let mut batch = UpgradeBatch::new(arts, 2);
    let r0 = batch.next_fetch().expect("permit free");
    let r1 = batch.next_fetch().expect("permit free");
    // Two tasks hold permits: the ceiling refuses a third.
    assert!(batch.next_fetch().is_none());
    assert!(batch.complete_fetch(r0.key, ok_body("a")));
    // A permit was released: dispatch resumes.
    let r2 = batch.next_fetch().expect("permit free again");
    assert!(batch.next_fetch().is_none());
    assert!(batch.complete_fetch(r1.key, ok_body("b")));
    assert!(batch.complete_fetch(r2.key, ok_body("c")));
    assert!(batch.is_done());
    assert_eq!(batch.into_results().len(), 3);
}

#[test]
fn fetch_limit_does_not_change_which_articles_succeed() {
    let make = || {
        vec![
            summary("a", Some("http://a/")),
            summary("b", Some("http://b/")),
            summary("c", Some("http://c/")),
        ]
    };
    let responses: [Result<&str, UpgradeError>; 3] =
        [Ok("ca"), Err(UpgradeError::Fetch), Ok("cc")];
    let serial = run_to_completion(make(), 1, &responses);

    // A wide limit, completed in reverse order.
    let mut batch = UpgradeBatch::new(make(), 32);
    let mut reqs = Vec::new();
    while let Some(r) = batch.next_fetch() {
        reqs.push(r);
    }
    assert_eq!(reqs.len(), 3);
    for req in reqs.into_iter().rev() {
        let outcome = match responses[req.key] {
            Ok(text) => ok_body(text),
            Err(e) => Err(e),
        };
        assert!(batch.complete_fetch(req.key, outcome));
    }
    assert!(batch.is_done());
    let wide = batch.into_results();

    assert_eq!(serial.len(), wide.len());
    for (s, w) in serial.iter().zip(wide.iter()) {
        match (s, w) {
            (Ok(sa), Ok(wa)) => {
                assert_eq!(sa.id, wa.id);
                assert_eq!(sa.content, wa.content);
                assert_eq!(sa.url, wa.url);
            }
            (Err(se), Err(we)) => assert_eq!(se, we),
            _ => panic!("limit changed which articles succeeded"),
        }
    }
}

#[test]
fn unknown_or_repeated_keys_are_refused() {
    let arts = vec![summary("a", Some("http://a/"))];
    let mut batch = UpgradeBatch::new(arts, 1);
    // Not handed out yet: refused.
    assert!(!batch.complete_fetch(0, ok_body("early")));
    let req = batch.next_fetch().expect("one task");
    assert!(batch.complete_fetch(req.key, ok_body("body")));
    // Repeated: refused.
    assert!(!batch.complete_fetch(req.key, ok_body("again")));
    // Out of range: refused.
    assert!(!batch.complete_fetch(7, ok_body("nowhere")));
    let results = batch.into_results();
    assert_eq!(results.len(), 1);
    assert_eq!(results[0].as_ref().unwrap().content, "body");
}

#[test]
fn upgraded_articles_carry_fields_over() {
    let art = Article::new(
        String::from("id-1"),
        Some(String::from("http://a/")),
        String::from("The title"),
        String::from("Ann"),
        Some(String::from("inline")),
        Some(String::from("sum")),
        Some(String::from("2024-01-01T00:00:00+00:00")),
        Some(String::from("2024-01-02T00:00:00+00:00")),
    );
    let results = run_to_completion(vec![art], 1, &[Ok("full text")]);
    let full = results[0].as_ref().unwrap();
    assert_eq!(full.id, "id-1");
    assert_eq!(full.url.as_deref(), Some("http://a/"));
    assert_eq!(full.title, "The title");
    assert_eq!(full.author, "Ann");
    assert_eq!(full.content, "full text");
    assert_eq!(full.summary.as_deref(), Some("sum"));
    assert_eq!(full.published_at.as_deref(), Some("2024-01-01T00:00:00+00:00"));
    assert_eq!(full.updated_at.as_deref(), Some("2024-01-02T00:00:00+00:00"));
}

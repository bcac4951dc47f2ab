use boke::model::FeedError;
use boke::parser::parse;
use boke::store::{
    choose_feed_url, entry_article, feed_record, ingest_entries, refresh_all_with_parsed,
    refresh_with_parsed, ArticleStore, InsertResult, NewArticle, RefreshInput,
};
use boke::discovery::DiscoveredFeed;

fn article(feed_id: i64, guid: &str) -> NewArticle {
    NewArticle {
        feed_id,
        guid: guid.to_string(),
        title: "t".to_string(),
        link: None,
        author: None,
        summary: None,
        content: None,
        image_url: None,
        published_at: None,
    }
}

const RSS: &str = r#"<rss version="2.0"><channel>
  <title>Store Blog</title>
  <link>https://example.com</link>
  <item><title>A</title><guid>g-a</guid></item>
  <item><title>B</title><guid>g-b</guid></item>
</channel></rss>"#;

#[test]
fn insert_then_ignore() {
    let mut store = ArticleStore::new();
    let a = article(1, "guid-1");
    assert_eq!(store.insert_article(&a), InsertResult::Inserted(0));
    assert_eq!(store.insert_article(&a), InsertResult::Ignored);
    assert_eq!(store.article_count(), 1);
}

#[test]
fn same_guid_under_other_feed_is_new() {
    let mut store = ArticleStore::new();
    assert_eq!(store.insert_article(&article(1, "g")), InsertResult::Inserted(0));
    assert_eq!(store.insert_article(&article(2, "g")), InsertResult::Inserted(1));
    assert_eq!(store.insert_article(&article(2, "g")), InsertResult::Ignored);
}

#[test]
fn ingest_counts_only_true_insertions() {
    let mut store = ArticleStore::new();
    let feed = parse(RSS.as_bytes(), "https://example.com/feed").unwrap();
    let n = ingest_entries(&mut store, 7, &feed.entries);
    assert_eq!(n, 2);
    let again = ingest_entries(&mut store, 7, &feed.entries);
    assert_eq!(again, 0);
    assert_eq!(store.article_count(), 2);
}

#[test]
fn refresh_twice_reports_zero_new() {
    let mut store = ArticleStore::new();
    let first = refresh_with_parsed(
        &mut store,
        7,
        parse(RSS.as_bytes(), "https://example.com/feed"),
    );
    assert_eq!(first.new_articles, 2);
    assert_eq!(first.error, None);
    let second = refresh_with_parsed(
        &mut store,
        7,
        parse(RSS.as_bytes(), "https://example.com/feed"),
    );
    assert_eq!(second.new_articles, 0);
    assert_eq!(second.error, None);
}

#[test]
fn failed_refresh_records_error_and_changes_nothing() {
    let mut store = ArticleStore::new();
    let r = refresh_with_parsed(&mut store, 3, Err(FeedError::Http("timed out".to_string())));
    assert_eq!(r.feed_id, 3);
    assert_eq!(r.new_articles, 0);
    assert_eq!(r.error.as_deref(), Some("HTTP error: timed out"));
    assert_eq!(store.article_count(), 0);
}

#[test]
fn refresh_all_isolates_failures() {
    let mut store = ArticleStore::new();
    let inputs = vec![
        RefreshInput { feed_id: 1, parsed: parse(RSS.as_bytes(), "https://example.com/feed") },
        RefreshInput { feed_id: 2, parsed: Err(FeedError::Http("timed out".to_string())) },
        RefreshInput { feed_id: 3, parsed: parse(RSS.as_bytes(), "https://example.com/feed") },
    ];
    let results = refresh_all_with_parsed(&mut store, inputs);
    assert_eq!(results.len(), 3);
    assert_eq!(results[0].feed_id, 1);
    assert_eq!(results[0].new_articles, 2);
    assert_eq!(results[0].error, None);
    assert_eq!(results[1].feed_id, 2);
    assert_eq!(results[1].new_articles, 0);
    assert!(results[1].error.is_some());
    assert_eq!(results[2].feed_id, 3);
    assert_eq!(results[2].new_articles, 2);
    assert_eq!(results[2].error, None);
}

#[test]
fn feed_record_maps_empty_link_to_absent_site() {
    let feed = parse(RSS.as_bytes(), "https://example.com/feed").unwrap();
    let rec = feed_record(&feed);
    assert_eq!(rec.title, "Store Blog");
    assert_eq!(rec.feed_url, "https://example.com/feed");
    assert_eq!(rec.site_url.as_deref(), Some("https://example.com"));
    assert_eq!(rec.folder_id, None);

    let bare = parse(
        b"<rss><channel><title>Bare</title></channel></rss>",
        "https://example.com/feed",
    )
    .unwrap();
    assert_eq!(feed_record(&bare).site_url, None);
}

#[test]
fn entry_article_maps_empty_link_to_absent() {
    let feed = parse(RSS.as_bytes(), "https://example.com/feed").unwrap();
    let a = entry_article(7, &feed.entries[0]);
    assert_eq!(a.feed_id, 7);
    assert_eq!(a.guid, "g-a");
    assert_eq!(a.title, "A");
    assert_eq!(a.link, None);
}

#[test]
fn chosen_url_prefers_discovery() {
    let discovered = vec![
        DiscoveredFeed { url: "https://site/feed.xml".to_string() },
        DiscoveredFeed { url: "https://site/other.xml".to_string() },
    ];
    assert_eq!(choose_feed_url(&discovered, "https://site/"), "https://site/feed.xml");
    assert_eq!(choose_feed_url(&Vec::new(), "https://site/"), "https://site/");
}

#[test]
fn feed_records_get_sequential_ids() {
    let mut store = ArticleStore::new();
    let feed = parse(RSS.as_bytes(), "https://example.com/feed").unwrap();
    let id0 = store.insert_feed(feed_record(&feed));
    let id1 = store.insert_feed(feed_record(&feed));
    assert_eq!(id0, 0);
    assert_eq!(id1, 1);
    assert_eq!(
        store.get_feed_url(id0).as_deref(),
        Some("https://example.com/feed")
    );
    assert_eq!(store.get_feed_url(99), None);
    assert_eq!(store.get_feed_url(-1), None);
}

#[test]
fn favicon_update_is_recorded_only_for_known_feeds() {
    let mut store = ArticleStore::new();
    let feed = parse(RSS.as_bytes(), "https://example.com/feed").unwrap();
    let id = store.insert_feed(feed_record(&feed));
    store.update_feed_favicon(id, "https://example.com/favicon.ico".to_string());
    store.update_feed_favicon(42, "https://nowhere.example/favicon.ico".to_string());
    assert_eq!(
        store.get_feed_url(id).as_deref(),
        Some("https://example.com/feed")
    );
}

use boke::api::{GetArticlesQuery, ImportResult, SearchQuery};

#[test]
fn listing_defaults_are_filled_in() {
    let q = GetArticlesQuery {
        feed_id: None,
        offset: None,
        limit: None,
        unread_only: None,
        favorites_only: None,
    };
    let full = q.into_query();
    assert_eq!(full.feed_id, None);
    assert_eq!(full.offset, 0);
    assert_eq!(full.limit, 50);
    assert!(!full.unread_only);
    assert!(!full.favorites_only);
}

#[test]
fn listing_keeps_explicit_values() {
    let q = GetArticlesQuery {
        feed_id: Some(4),
        offset: Some(10),
        limit: Some(5),
        unread_only: Some(true),
        favorites_only: Some(true),
    };
    let full = q.into_query();
    assert_eq!(full.feed_id, Some(4));
    assert_eq!(full.offset, 10);
    assert_eq!(full.limit, 5);
    assert!(full.unread_only);
    assert!(full.favorites_only);
}

#[test]
fn search_limit_defaults_to_fifty() {
    let q = SearchQuery { q: "rust".to_string(), limit: None };
    assert_eq!(q.effective_limit(), 50);
    let q2 = SearchQuery { q: "rust".to_string(), limit: Some(7) };
    assert_eq!(q2.effective_limit(), 7);
}

#[test]
fn import_summary_accumulates() {
    let mut r = ImportResult::new();
    r.record_added();
    r.record_added();
    r.record_skipped();
    r.record_error("https://bad.example: no feed".to_string());
    assert_eq!(r.added, 2);
    assert_eq!(r.skipped, 1);
    assert_eq!(r.errors, vec!["https://bad.example: no feed"]);
}

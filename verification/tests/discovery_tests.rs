use boke::discovery::{
    is_feed_content_type, looks_like_feed, no_feed_error, plan_discovery, probe_accepts,
    DiscoveryStep,
};
use boke::model::FeedError;

#[test]
fn content_type_classification() {
    assert!(is_feed_content_type("application/rss+xml"));
    assert!(is_feed_content_type("application/atom+xml"));
    assert!(is_feed_content_type("text/xml; charset=utf-8"));
    assert!(is_feed_content_type("application/feed+json"));
    assert!(!is_feed_content_type("text/html"));
    assert!(!is_feed_content_type(""));
}

#[test]
fn body_sniffing() {
    assert!(looks_like_feed("<?xml version=\"1.0\"?><rss/>"));
    assert!(looks_like_feed("  \n<rss version=\"2.0\">"));
    assert!(looks_like_feed("<feed xmlns=\"http://www.w3.org/2005/Atom\">"));
    assert!(looks_like_feed("<rdf:RDF>"));
    assert!(!looks_like_feed("<html><head></head></html>"));
    assert!(!looks_like_feed(""));
}

#[test]
fn feed_response_is_its_own_candidate() {
    let step = plan_discovery("https://site/feed.xml", "application/rss+xml", "whatever");
    match step {
        DiscoveryStep::Found(urls) => {
            assert_eq!(urls.len(), 1);
            assert_eq!(urls[0].url, "https://site/feed.xml");
        }
        _ => panic!("expected the URL itself as the only candidate"),
    }
}

#[test]
fn feed_looking_body_is_its_own_candidate() {
    let step = plan_discovery("https://site/something", "text/plain", "<?xml version=\"1.0\"?>");
    match step {
        DiscoveryStep::Found(urls) => {
            assert_eq!(urls.len(), 1);
            assert_eq!(urls[0].url, "https://site/something");
        }
        _ => panic!("expected the URL itself as the only candidate"),
    }
}

#[test]
fn html_alternate_link_is_resolved_against_page_url() {
    let html = r#"<html><head>
      <link rel="alternate" type="application/rss+xml" href="/feed.xml">
    </head><body></body></html>"#;
    let step = plan_discovery("https://site/", "text/html", html);
    match step {
        DiscoveryStep::Found(urls) => {
            assert_eq!(urls.len(), 1);
            assert_eq!(urls[0].url, "https://site/feed.xml");
        }
        _ => panic!("expected the linked feed, without probing"),
    }
}

#[test]
fn alternate_links_keep_document_order_without_dedup() {
    let html = r#"<html><head>
      <link rel="alternate" type="application/atom+xml" href="https://site/a.xml">
      <link rel="alternate" type="text/css" href="https://site/style.css">
      <link rel="alternate" type="application/rss+xml" href="https://site/b.xml">
      <link rel="alternate" type="application/rss+xml" href="https://site/a.xml">
    </head></html>"#;
    let step = plan_discovery("https://site/", "text/html", html);
    match step {
        DiscoveryStep::Found(urls) => {
            let got: Vec<&str> = urls.iter().map(|u| u.url.as_str()).collect();
            assert_eq!(
                got,
                vec!["https://site/a.xml", "https://site/b.xml", "https://site/a.xml"]
            );
        }
        _ => panic!("expected the linked feeds"),
    }
}

#[test]
fn plain_html_page_is_probed_on_common_paths() {
    let step = plan_discovery("https://site/", "text/html", "<html></html>");
    match step {
        DiscoveryStep::Probe(urls) => {
            assert_eq!(urls.len(), 9);
            assert_eq!(urls[0], "https://site/feed");
            assert_eq!(urls[1], "https://site/rss");
            assert_eq!(urls[8], "https://site/?feed=rss2");
        }
        _ => panic!("expected the probe plan"),
    }
}

#[test]
fn invalid_page_url_fails_discovery() {
    let step = plan_discovery("not a url", "text/html", "<html></html>");
    assert!(matches!(step, DiscoveryStep::Failed(FeedError::Discovery(_))));
}

#[test]
fn probe_acceptance() {
    assert!(probe_accepts(true, "application/rss+xml"));
    assert!(!probe_accepts(false, "application/rss+xml"));
    assert!(!probe_accepts(true, "text/html"));
}

#[test]
fn no_feed_error_names_the_url() {
    let err = no_feed_error("https://site/");
    assert_eq!(
        err.message(),
        "Feed discovery failed: No feed found at https://site/. Try providing the direct feed URL."
    );
}

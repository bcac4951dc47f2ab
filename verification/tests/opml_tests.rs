use boke::opml::{parse_opml, OpmlError};

#[test]
fn parse_simple_opml() {
    let opml = r#"<?xml version="1.0" encoding="UTF-8"?>
<opml version="2.0">
  <body>
    <outline text="Tech" title="Tech">
      <outline type="rss" text="Hacker News" xmlUrl="https://news.ycombinator.com/rss"/>
      <outline type="rss" text="Lobsters" xmlUrl="https://lobste.rs/rss"/>
    </outline>
  </body>
</opml>"#;

    let urls = parse_opml(opml).unwrap();
    assert_eq!(urls.len(), 2);
    assert!(urls.contains(&"https://news.ycombinator.com/rss".to_string()));
    assert!(urls.contains(&"https://lobste.rs/rss".to_string()));
}

#[test]
fn parse_flat_opml() {
    let opml = r#"<?xml version="1.0"?>
<opml version="1.0">
  <body>
    <outline xmlUrl="https://example.com/feed.xml"/>
  </body>
</opml>"#;

    let urls = parse_opml(opml).unwrap();
    assert_eq!(urls.len(), 1);
    assert_eq!(urls[0], "https://example.com/feed.xml");
}

#[test]
fn empty_opml_returns_error() {
    let opml = r#"<?xml version="1.0"?>
<opml version="1.0">
  <body>
  </body>
</opml>"#;

    let result = parse_opml(opml);
    assert!(matches!(result, Err(OpmlError::NoFeeds)));
}

#[test]
fn lowercase_attribute_is_accepted() {
    let opml = r#"<opml><body><outline xmlurl="https://example.com/a"/></body></opml>"#;
    let urls = parse_opml(opml).unwrap();
    assert_eq!(urls, vec!["https://example.com/a"]);
}

#[test]
fn malformed_opml_returns_parse_error() {
    let opml = r#"<opml><body><outline xmlUrl="https://a"/></nope></opml>"#;
    assert!(matches!(parse_opml(opml), Err(OpmlError::ParseError(_))));
}

#[test]
fn urls_keep_document_order() {
    let opml = r#"<opml><body>
      <outline xmlUrl="https://one.example/feed"/>
      <outline xmlUrl="https://two.example/feed"/>
      <outline xmlUrl="https://three.example/feed"/>
    </body></opml>"#;
    let urls = parse_opml(opml).unwrap();
    assert_eq!(
        urls,
        vec![
            "https://one.example/feed",
            "https://two.example/feed",
            "https://three.example/feed"
        ]
    );
}

use boke::model::FeedError;
use boke::parser::parse;

#[test]
fn test_parse_rss2() {
    let xml = r#"<?xml version="1.0" encoding="UTF-8"?>
<rss version="2.0" xmlns:content="http://purl.org/rss/1.0/modules/content/" xmlns:dc="http://purl.org/dc/elements/1.1/">
  <channel>
    <title>Test Blog</title>
    <link>https://example.com</link>
    <description>A test blog</description>
    <language>en</language>
    <lastBuildDate>Mon, 15 Jan 2024 10:30:00 +0000</lastBuildDate>
    <item>
      <title>First Post</title>
      <link>https://example.com/post-1</link>
      <guid>https://example.com/post-1</guid>
      <description>Short summary</description>
      <content:encoded><![CDATA[<p>Full content here</p>]]></content:encoded>
      <dc:creator>Author Name</dc:creator>
      <pubDate>Mon, 15 Jan 2024 10:30:00 +0000</pubDate>
      <category>Tech</category>
      <category>Rust</category>
    </item>
    <item>
      <title>Second Post</title>
      <link>https://example.com/post-2</link>
      <description>Another post</description>
      <pubDate>Sun, 14 Jan 2024 08:00:00 +0000</pubDate>
    </item>
  </channel>
</rss>"#;

    let feed = parse(xml.as_bytes(), "https://example.com/feed").unwrap();
    assert_eq!(feed.title, "Test Blog");
    assert_eq!(feed.link, "https://example.com");
    assert_eq!(feed.description.as_deref(), Some("A test blog"));
    assert_eq!(feed.language.as_deref(), Some("en"));
    assert!(feed.last_updated.is_some());
    assert_eq!(feed.entries.len(), 2);

    let first = &feed.entries[0];
    assert_eq!(first.title, "First Post");
    assert_eq!(first.link, "https://example.com/post-1");
    assert_eq!(first.id, "https://example.com/post-1");
    assert_eq!(first.summary.as_deref(), Some("Short summary"));
    assert_eq!(first.content.as_deref(), Some("<p>Full content here</p>"));
    assert_eq!(first.author.as_deref(), Some("Author Name"));
    assert!(first.published.is_some());
    assert_eq!(first.categories, vec!["Tech", "Rust"]);

    // Second entry has no guid — should use link as id
    let second = &feed.entries[1];
    assert_eq!(second.id, "https://example.com/post-2");
}

#[test]
fn test_parse_rss1() {
    let xml = r#"<?xml version="1.0" encoding="UTF-8"?>
<rdf:RDF
  xmlns:rdf="http://www.w3.org/1999/02/22-rdf-syntax-ns#"
  xmlns="http://purl.org/rss/1.0/"
  xmlns:dc="http://purl.org/dc/elements/1.1/"
>
  <channel>
    <title>RDF Test Blog</title>
    <link>https://example.com</link>
    <description>An RDF test blog</description>
  </channel>
  <item rdf:about="https://example.com/rdf-post-1">
    <title>RDF Post One</title>
    <link>https://example.com/rdf-post-1</link>
    <dc:date>2024-01-15T10:30:00Z</dc:date>
    <dc:creator>RDF Author</dc:creator>
    <description>RDF summary</description>
  </item>
</rdf:RDF>"#;

    let feed = parse(xml.as_bytes(), "https://example.com/rss1").unwrap();
    assert_eq!(feed.title, "RDF Test Blog");
    assert_eq!(feed.link, "https://example.com");
    assert_eq!(feed.description.as_deref(), Some("An RDF test blog"));
    assert_eq!(feed.entries.len(), 1);

    let entry = &feed.entries[0];
    assert_eq!(entry.title, "RDF Post One");
    assert_eq!(entry.id, "https://example.com/rdf-post-1");
    assert_eq!(entry.link, "https://example.com/rdf-post-1");
    assert_eq!(entry.author.as_deref(), Some("RDF Author"));
    assert_eq!(entry.summary.as_deref(), Some("RDF summary"));
    assert!(entry.published.is_some());
}

#[test]
fn test_parse_atom() {
    let xml = r#"<?xml version="1.0" encoding="UTF-8"?>
<feed xmlns="http://www.w3.org/2005/Atom">
  <title>Test Atom Blog</title>
  <link href="https://example.com" rel="alternate" />
  <link href="https://example.com/atom.xml" rel="self" />
  <subtitle>An Atom test blog</subtitle>
  <updated>2024-01-15T10:30:00Z</updated>
  <entry>
    <title>Atom Post One</title>
    <id>urn:uuid:1225c695-cfb8-4ebb-aaaa-80da344efa6a</id>
    <link href="https://example.com/atom-post-1" rel="alternate" />
    <content type="html">&lt;p&gt;Full atom content&lt;/p&gt;</content>
    <summary>Short atom summary</summary>
    <published>2024-01-15T10:30:00Z</published>
    <updated>2024-01-15T12:00:00Z</updated>
    <author><name>Atom Author</name></author>
    <category term="Atom" />
    <category term="Test" />
  </entry>
</feed>"#;

    let feed = parse(xml.as_bytes(), "https://example.com/atom.xml").unwrap();
    assert_eq!(feed.title, "Test Atom Blog");
    assert_eq!(feed.link, "https://example.com");
    assert_eq!(feed.description.as_deref(), Some("An Atom test blog"));
    assert!(feed.last_updated.is_some());
    assert_eq!(feed.entries.len(), 1);

    let entry = &feed.entries[0];
    assert_eq!(entry.title, "Atom Post One");
    assert_eq!(entry.id, "urn:uuid:1225c695-cfb8-4ebb-aaaa-80da344efa6a");
    assert_eq!(entry.link, "https://example.com/atom-post-1");
    assert!(entry.content.is_some());
    assert_eq!(entry.summary.as_deref(), Some("Short atom summary"));
    assert_eq!(entry.author.as_deref(), Some("Atom Author"));
    assert!(entry.published.is_some());
    assert!(entry.updated.is_some());
    assert_eq!(entry.categories, vec!["Atom", "Test"]);
}

#[test]
fn atom_first_alternate_link_wins() {
    let xml = r#"<feed xmlns="http://www.w3.org/2005/Atom">
  <title>Two Links</title>
  <link href="https://first.example" rel="alternate" />
  <link href="https://second.example" rel="alternate" />
</feed>"#;
    let feed = parse(xml.as_bytes(), "https://example.com/atom.xml").unwrap();
    assert_eq!(feed.link, "https://first.example");
}

#[test]
fn entry_id_synthesised_from_feed_url_and_ordinal() {
    let xml = r#"<rss version="2.0"><channel>
  <title>No Ids</title>
  <item><title>A</title></item>
  <item><title>B</title></item>
</channel></rss>"#;
    let feed = parse(xml.as_bytes(), "https://example.com/feed").unwrap();
    assert_eq!(feed.entries[0].id, "https://example.com/feed-0");
    assert_eq!(feed.entries[1].id, "https://example.com/feed-1");
}

#[test]
fn rss2_image_enclosure_sets_image_url() {
    let xml = r#"<rss version="2.0"><channel>
  <title>Enclosures</title>
  <item>
    <title>With image</title>
    <enclosure url="https://example.com/a.jpg" type="image/jpeg" length="1000"></enclosure>
  </item>
  <item>
    <title>With audio</title>
    <enclosure url="https://example.com/a.mp3" type="audio/mpeg" length="1000"></enclosure>
  </item>
</channel></rss>"#;
    let feed = parse(xml.as_bytes(), "https://example.com/feed").unwrap();
    assert_eq!(feed.entries.len(), 2);
    assert_eq!(
        feed.entries[0].image_url.as_deref(),
        Some("https://example.com/a.jpg")
    );
    assert_eq!(feed.entries[1].image_url, None);
}

#[test]
fn rss2_last_build_date_first_wins() {
    let xml = r#"<rss version="2.0"><channel>
  <title>Dates</title>
  <lastBuildDate>Mon, 15 Jan 2024 10:30:00 +0000</lastBuildDate>
  <pubDate>Tue, 16 Jan 2024 10:30:00 +0000</pubDate>
</channel></rss>"#;
    let feed = parse(xml.as_bytes(), "https://example.com/feed").unwrap();
    let lu = feed.last_updated.unwrap();
    assert_eq!(lu.day, 15);
}

#[test]
fn missing_title_is_rejected() {
    let xml = r#"<rss version="2.0"><channel><link>https://example.com</link></channel></rss>"#;
    let err = parse(xml.as_bytes(), "https://example.com/feed").unwrap_err();
    assert!(matches!(err, FeedError::MissingField(ref f) if f == "title"));
}

#[test]
fn unknown_root_is_rejected() {
    let xml = r#"<html><body>nope</body></html>"#;
    let err = parse(xml.as_bytes(), "https://example.com/feed").unwrap_err();
    assert!(matches!(err, FeedError::UnknownFormat));
}

#[test]
fn malformed_xml_is_rejected() {
    let xml = r#"<rss version="2.0"><channel><title>Broken</title></wrong></rss>"#;
    let err = parse(xml.as_bytes(), "https://example.com/feed").unwrap_err();
    assert!(matches!(err, FeedError::Xml(_)));
}

#[test]
fn entities_are_unescaped_in_text() {
    let xml = r#"<rss version="2.0"><channel>
  <title>Tom &amp; Jerry</title>
</channel></rss>"#;
    let feed = parse(xml.as_bytes(), "https://example.com/feed").unwrap();
    assert_eq!(feed.title, "Tom & Jerry");
}

#[test]
fn feed_getters_report_the_parsed_values() {
    let xml = r#"<rss version="2.0"><channel>
  <title>Getters</title>
  <link>https://example.com</link>
  <item><title>One</title><guid>g-1</guid></item>
</channel></rss>"#;
    let feed = parse(xml.as_bytes(), "https://example.com/feed").unwrap();
    assert_eq!(feed.site_url(), Some("https://example.com"));
    assert_eq!(feed.last_build_date(), None);
    assert_eq!(feed.items().len(), 1);
    assert_eq!(feed.items()[0].guid(), "g-1");
    assert_eq!(feed.items()[0].published_at(), None);
}

#[test]
fn feed_parser_struct_parses_strings() {
    let xml = r#"<rss version="2.0"><channel><title>Via FeedParser</title></channel></rss>"#;
    let feed = boke::parser::FeedParser::parse(xml, "https://example.com/feed").unwrap();
    assert_eq!(feed.title, "Via FeedParser");
}

#[test]
fn error_messages_name_the_failure() {
    let err = parse(b"<opml></opml>", "u").unwrap_err();
    assert_eq!(err.message(), "Unknown or unsupported feed format");
    let err2 = parse(b"<rss><channel></channel></rss>", "u").unwrap_err();
    assert_eq!(err2.message(), "Missing required field: title");
}

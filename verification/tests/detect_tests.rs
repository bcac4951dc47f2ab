use boke::detect::{detect_format, FeedFormat};

#[test]
fn test_detect_rss2() {
    let xml = br#"<?xml version="1.0"?><rss version="2.0"><channel></channel></rss>"#;
    assert_eq!(detect_format(xml), Some(FeedFormat::Rss2));
}

#[test]
fn test_detect_atom() {
    let xml = br#"<?xml version="1.0"?><feed xmlns="http://www.w3.org/2005/Atom"></feed>"#;
    assert_eq!(detect_format(xml), Some(FeedFormat::Atom));
}

#[test]
fn test_detect_rss1() {
    let xml =
        br#"<?xml version="1.0"?><rdf:RDF xmlns:rdf="http://www.w3.org/1999/02/22-rdf-syntax-ns#"></rdf:RDF>"#;
    assert_eq!(detect_format(xml), Some(FeedFormat::Rss1));
}

#[test]
fn test_detect_unknown() {
    let xml = br#"<html><body>Hello</body></html>"#;
    assert_eq!(detect_format(xml), None);
}

#[test]
fn detect_empty_input() {
    assert_eq!(detect_format(b""), None);
}

#[test]
fn detect_skips_comments_and_pi() {
    let xml = br#"<?xml version="1.0"?><!-- a comment --><?pi data?><rss></rss>"#;
    assert_eq!(detect_format(xml), Some(FeedFormat::Rss2));
}

#[test]
fn detect_self_closing_root() {
    let xml = br#"<feed/>"#;
    assert_eq!(detect_format(xml), Some(FeedFormat::Atom));
}

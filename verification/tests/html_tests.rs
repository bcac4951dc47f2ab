use boke::html::remove_attribute;

#[test]
fn strips_double_quoted_attribute() {
    let html = r#"<p class="big red">text</p>"#;
    assert_eq!(remove_attribute(html, "class"), "<p>text</p>");
}

#[test]
fn strips_single_quoted_attribute() {
    let html = "<p style='color: red'>text</p>";
    assert_eq!(remove_attribute(html, "style"), "<p>text</p>");
}

#[test]
fn strips_every_occurrence() {
    let html = r#"<p class="a"><span class="b">x</span></p>"#;
    assert_eq!(remove_attribute(html, "class"), "<p><span>x</span></p>");
}

#[test]
fn other_attributes_stay() {
    let html = r#"<img src="pic.png" class="wide">"#;
    assert_eq!(remove_attribute(html, "class"), r#"<img src="pic.png">"#);
}

#[test]
fn unterminated_value_is_left_alone() {
    let html = r#"<p class="never closed"#;
    assert_eq!(remove_attribute(html, "class"), html);
}

#[test]
fn absent_attribute_changes_nothing() {
    let html = "<p>plain</p>";
    assert_eq!(remove_attribute(html, "class"), html);
}

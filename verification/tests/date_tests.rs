use boke::date::parse_date;

#[test]
fn test_rfc3339() {
    let dt = parse_date("2024-01-15T10:30:00Z").unwrap();
    assert_eq!(dt.to_rfc3339(), "2024-01-15T10:30:00+00:00");
}

#[test]
fn test_rfc2822() {
    let dt = parse_date("Mon, 15 Jan 2024 10:30:00 +0000").unwrap();
    assert_eq!(dt.year, 2024);
    assert_eq!(dt.month, 1);
    assert_eq!(dt.day, 15);
}

#[test]
fn test_rfc2822_with_gmt() {
    let dt = parse_date("Mon, 15 Jan 2024 10:30:00 GMT").unwrap();
    assert_eq!(dt.year, 2024);
}

#[test]
fn test_date_only() {
    let dt = parse_date("2024-01-15").unwrap();
    assert_eq!(dt.year, 2024);
    assert_eq!(dt.month, 1);
    assert_eq!(dt.day, 15);
}

#[test]
fn test_empty_string() {
    assert!(parse_date("").is_none());
}

#[test]
fn test_garbage() {
    assert!(parse_date("not a date").is_none());
}

#[test]
fn offset_is_converted_to_utc() {
    let dt = parse_date("2024-01-15T10:30:00+02:00").unwrap();
    assert_eq!(dt.hour, 8);
    assert_eq!(dt.minute, 30);
}

#[test]
fn named_zone_est_is_substituted() {
    let dt = parse_date("Mon, 15 Jan 2024 10:30:00 EST").unwrap();
    assert_eq!(dt.year, 2024);
    assert_eq!(dt.hour, 15);
}

#[test]
fn naive_datetime_read_as_utc() {
    let dt = parse_date("2024-01-15 10:30:00").unwrap();
    assert_eq!(dt.year, 2024);
    assert_eq!(dt.hour, 10);
}

#[test]
fn whitespace_is_trimmed() {
    let dt = parse_date("  2024-01-15T10:30:00Z  ").unwrap();
    assert_eq!(dt.day, 15);
}

#[test]
fn date_only_is_midnight() {
    let dt = parse_date("2024-03-02").unwrap();
    assert_eq!(dt.hour, 0);
    assert_eq!(dt.minute, 0);
    assert_eq!(dt.second, 0);
}

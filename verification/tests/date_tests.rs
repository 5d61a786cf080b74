use ext::date_parse;

#[test]
fn date_parse_calendar_date() {
    assert_eq!(date_parse("%Y-%m-%d", "2023-05-01"), Some("2023-05-01".to_string()));
}

#[test]
fn date_parse_datetime_with_offset() {
    assert_eq!(
        date_parse("%Y-%m-%dT%H:%M:%S%z", "2023-05-01T10:00:00+00:00"),
        Some("2023-05-01T10:00:00.000Z".to_string())
    );
}

#[test]
fn date_parse_datetime_without_offset() {
    assert_eq!(
        date_parse("%Y-%m-%d %H:%M:%S", "2023-05-01 10:00:00"),
        Some("2023-05-01T10:00:00.000Z".to_string())
    );
}

#[test]
fn date_parse_keeps_millisecond_precision() {
    assert_eq!(
        date_parse("%Y-%m-%d %H:%M:%S%.f", "2023-05-01 10:00:00.123"),
        Some("2023-05-01T10:00:00.123Z".to_string())
    );
}

#[test]
fn date_parse_reformats_other_date_order() {
    assert_eq!(date_parse("%d/%m/%Y", "01/05/2023"), Some("2023-05-01".to_string()));
}

#[test]
fn date_parse_rejects_mismatched_value() {
    assert_eq!(date_parse("%Y-%m-%d", "not a date"), None);
}

#[test]
fn date_parse_rejects_impossible_date() {
    assert_eq!(date_parse("%Y-%m-%d", "2023-02-30"), None);
}

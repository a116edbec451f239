use epochzone::datetime::parse_datetime_literal;
use epochzone::datetime::NaiveStamp;

#[test]
fn test_parse_seconds_shape() {
    let st = parse_datetime_literal("2025-02-10T15:30:00").unwrap();
    assert_eq!(
        st,
        NaiveStamp { year: 2025, month: 2, day: 10, hour: 15, minute: 30, second: 0 }
    );
}

#[test]
fn test_parse_minutes_shape_defaults_seconds() {
    let st = parse_datetime_literal("2025-02-10T15:30").unwrap();
    assert_eq!(st.second, 0);
    assert_eq!(st.minute, 30);
    assert_eq!(st.hour, 15);
}

#[test]
fn test_parse_leap_day() {
    assert!(parse_datetime_literal("2024-02-29T12:00:00").is_some());
    assert!(parse_datetime_literal("2023-02-29T12:00:00").is_none());
    assert!(parse_datetime_literal("2000-02-29T12:00:00").is_some());
    assert!(parse_datetime_literal("1900-02-29T12:00:00").is_none());
}

#[test]
fn test_parse_rejects_bad_shapes() {
    assert!(parse_datetime_literal("").is_none());
    assert!(parse_datetime_literal("2025-02-10").is_none());
    assert!(parse_datetime_literal("2025-02-10 15:30:00").is_none());
    assert!(parse_datetime_literal("2025/02/10T15:30:00").is_none());
    assert!(parse_datetime_literal("2025-02-10T15:30:00Z").is_none());
    assert!(parse_datetime_literal("25-02-10T15:30:00").is_none());
    assert!(parse_datetime_literal("2025-02-10Taa:30:00").is_none());
}

#[test]
fn test_parse_rejects_out_of_range_fields() {
    assert!(parse_datetime_literal("2025-13-10T15:30:00").is_none());
    assert!(parse_datetime_literal("2025-00-10T15:30:00").is_none());
    assert!(parse_datetime_literal("2025-04-31T15:30:00").is_none());
    assert!(parse_datetime_literal("2025-02-10T24:30:00").is_none());
    assert!(parse_datetime_literal("2025-02-10T15:60:00").is_none());
    assert!(parse_datetime_literal("2025-02-10T15:30:60").is_none());
}

#[test]
fn test_parse_month_boundaries() {
    assert!(parse_datetime_literal("2025-01-31T00:00:00").is_some());
    assert!(parse_datetime_literal("2025-04-30T23:59:59").is_some());
    assert!(parse_datetime_literal("2025-12-31T23:59").is_some());
}

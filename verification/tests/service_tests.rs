use epochzone::models::ConvertRequest;
use epochzone::service::EpochZoneService;

#[test]
fn test_get_timezone_info_valid() {
    let result = EpochZoneService::get_timezone_info("America/New_York");
    assert!(result.is_ok());

    let info = result.unwrap();
    assert_eq!(info.timezone, "America/New_York");
    assert!(!info.current_time.is_empty());
}

#[test]
fn test_get_timezone_info_invalid() {
    let result = EpochZoneService::get_timezone_info("Invalid/Timezone");
    assert!(result.is_err());
}

#[test]
fn test_get_timezone_info_utc() {
    let result = EpochZoneService::get_timezone_info("UTC");
    assert!(result.is_ok());

    let info = result.unwrap();
    assert_eq!(info.utc_offset, "UTC+00:00");
    assert_eq!(info.is_dst, false);
}

#[test]
fn test_get_all_timezones() {
    let timezones = EpochZoneService::get_all_timezones();
    assert!(!timezones.is_empty());
    assert!(timezones.len() > 500); // Should have 600+ timezones
}

#[test]
fn test_is_valid_timezone() {
    assert!(EpochZoneService::is_valid_timezone("America/New_York"));
    assert!(EpochZoneService::is_valid_timezone("Europe/London"));
    assert!(EpochZoneService::is_valid_timezone("UTC"));
    assert!(!EpochZoneService::is_valid_timezone("Invalid/Timezone"));
}

#[test]
fn test_timezone_list_format() {
    let timezones = EpochZoneService::get_all_timezones();
    let ny = timezones.iter().find(|tz| tz.name == "America/New_York");

    assert!(ny.is_some());
    let ny = ny.unwrap();
    assert_eq!(ny.display_name, "America/New York");
}

#[test]
fn test_convert_timezone_with_timestamp() {
    let request = ConvertRequest {
        timestamp: Some(1707580800),
        datetime: None,
        from: None,
        to: "America/New_York".to_string(),
    };
    let result = EpochZoneService::convert_timezone(&request);
    assert!(result.is_ok());

    let resp = result.unwrap();
    assert_eq!(resp.from.timezone, "UTC");
    assert_eq!(resp.to.timezone, "America/New_York");
    assert_eq!(resp.from.timestamp, resp.to.timestamp);
}

#[test]
fn test_convert_timezone_with_datetime() {
    let request = ConvertRequest {
        timestamp: None,
        datetime: Some("2025-02-10T15:30:00".to_string()),
        from: Some("Europe/Belgrade".to_string()),
        to: "America/New_York".to_string(),
    };
    let result = EpochZoneService::convert_timezone(&request);
    assert!(result.is_ok());

    let resp = result.unwrap();
    assert_eq!(resp.from.timezone, "Europe/Belgrade");
    assert_eq!(resp.to.timezone, "America/New_York");
    assert_eq!(resp.from.timestamp, resp.to.timestamp);
    // Belgrade is CET (UTC+1) in February, NY is EST (UTC-5), difference is 6 hours
    assert!(resp.to.datetime.contains("09:30:00"));
}

#[test]
fn test_convert_timezone_invalid_target() {
    let request = ConvertRequest {
        timestamp: Some(1707580800),
        datetime: None,
        from: None,
        to: "Invalid/Zone".to_string(),
    };
    let result = EpochZoneService::convert_timezone(&request);
    assert!(result.is_err());
    assert!(result.unwrap_err().contains("Invalid target timezone"));
}

#[test]
fn test_convert_timezone_missing_fields() {
    let request = ConvertRequest {
        timestamp: None,
        datetime: None,
        from: None,
        to: "UTC".to_string(),
    };
    let result = EpochZoneService::convert_timezone(&request);
    assert!(result.is_err());
    assert!(result.unwrap_err().contains("required"));
}

#[test]
fn test_convert_timezone_both_timestamp_and_datetime() {
    let request = ConvertRequest {
        timestamp: Some(1707580800),
        datetime: Some("2025-02-10T15:30:00".to_string()),
        from: Some("UTC".to_string()),
        to: "America/New_York".to_string(),
    };
    let result = EpochZoneService::convert_timezone(&request);
    assert!(result.is_err());
    assert!(result.unwrap_err().contains("not both"));
}

#[test]
fn test_convert_timezone_datetime_without_from() {
    let request = ConvertRequest {
        timestamp: None,
        datetime: Some("2025-02-10T15:30:00".to_string()),
        from: None,
        to: "America/New_York".to_string(),
    };
    let result = EpochZoneService::convert_timezone(&request);
    assert!(result.is_err());
    assert!(result.unwrap_err().contains("'from' timezone is required"));
}

#[test]
fn test_convert_timestamp_exact_rendering() {
    // 1707580800 is 2024-02-10T16:00:00Z; New York observes EST (UTC-5) then.
    let request = ConvertRequest {
        timestamp: Some(1707580800),
        datetime: None,
        from: None,
        to: "America/New_York".to_string(),
    };
    let resp = EpochZoneService::convert_timezone(&request).unwrap();
    assert_eq!(resp.from.timestamp, 1707580800);
    assert_eq!(resp.to.timestamp, 1707580800);
    assert_eq!(resp.from.datetime, "2024-02-10T16:00:00+00:00");
    assert_eq!(resp.from.utc_offset, "UTC+00:00");
    assert_eq!(resp.to.datetime, "2024-02-10T11:00:00-05:00");
    assert_eq!(resp.to.utc_offset, "UTC-05:00");
    assert_eq!(resp.to.abbreviation, "EST");
    assert!(!resp.to.is_dst);
}

#[test]
fn test_convert_datetime_exact_instant() {
    // 2025-02-10T15:30:00 in Belgrade (CET, UTC+1) is 14:30:00 UTC.
    let request = ConvertRequest {
        timestamp: None,
        datetime: Some("2025-02-10T15:30:00".to_string()),
        from: Some("Europe/Belgrade".to_string()),
        to: "America/New_York".to_string(),
    };
    let resp = EpochZoneService::convert_timezone(&request).unwrap();
    assert_eq!(resp.from.timestamp, 1739197800);
    assert_eq!(resp.to.datetime, "2025-02-10T09:30:00-05:00");
}

#[test]
fn test_convert_minutes_precision_datetime() {
    // Seconds default to zero in the short shape.
    let request = ConvertRequest {
        timestamp: None,
        datetime: Some("2025-02-10T15:30".to_string()),
        from: Some("Europe/Belgrade".to_string()),
        to: "America/New_York".to_string(),
    };
    let resp = EpochZoneService::convert_timezone(&request).unwrap();
    assert_eq!(resp.from.timestamp, 1739197800);
}

#[test]
fn test_convert_malformed_datetime() {
    let request = ConvertRequest {
        timestamp: None,
        datetime: Some("2025-02-30T15:30:00".to_string()),
        from: Some("UTC".to_string()),
        to: "America/New_York".to_string(),
    };
    let result = EpochZoneService::convert_timezone(&request);
    assert!(result.is_err());
    assert!(result.unwrap_err().contains("Invalid datetime"));
}

#[test]
fn test_convert_invalid_source_zone() {
    let request = ConvertRequest {
        timestamp: None,
        datetime: Some("2025-02-10T15:30:00".to_string()),
        from: Some("Nowhere/AtAll".to_string()),
        to: "UTC".to_string(),
    };
    let result = EpochZoneService::convert_timezone(&request);
    assert!(result.is_err());
    assert!(result.unwrap_err().contains("Invalid source timezone"));
}

#[test]
fn test_convert_spring_forward_gap() {
    // 02:30 on 2025-03-09 does not exist in New York (clocks jump 02:00->03:00).
    let request = ConvertRequest {
        timestamp: None,
        datetime: Some("2025-03-09T02:30:00".to_string()),
        from: Some("America/New_York".to_string()),
        to: "UTC".to_string(),
    };
    let result = EpochZoneService::convert_timezone(&request);
    assert!(result.is_err());
    assert!(result.unwrap_err().contains("Ambiguous or invalid local time"));
}

#[test]
fn test_convert_fall_back_overlap() {
    // 01:30 on 2025-11-02 occurs twice in New York (clocks fall 02:00->01:00).
    let request = ConvertRequest {
        timestamp: None,
        datetime: Some("2025-11-02T01:30:00".to_string()),
        from: Some("America/New_York".to_string()),
        to: "UTC".to_string(),
    };
    let result = EpochZoneService::convert_timezone(&request);
    assert!(result.is_err());
    assert!(result.unwrap_err().contains("Ambiguous or invalid local time"));
}

#[test]
fn test_convert_out_of_range_timestamp() {
    let request = ConvertRequest {
        timestamp: Some(i64::MAX),
        datetime: None,
        from: None,
        to: "UTC".to_string(),
    };
    let result = EpochZoneService::convert_timezone(&request);
    assert!(result.is_err());
    assert_eq!(result.unwrap_err(), format!("Invalid timestamp: {}", i64::MAX));
}

#[test]
fn test_dst_flag_differs_between_sides() {
    // 1721000000 is July 2024: New York observes EDT, UTC never does.
    let request = ConvertRequest {
        timestamp: Some(1721000000),
        datetime: None,
        from: None,
        to: "America/New_York".to_string(),
    };
    let resp = EpochZoneService::convert_timezone(&request).unwrap();
    assert!(!resp.from.is_dst);
    assert!(resp.to.is_dst);
    assert_eq!(resp.to.abbreviation, "EDT");
    assert_eq!(resp.to.utc_offset, "UTC-04:00");
}

#[test]
fn test_info_at_fixed_instant() {
    // Kolkata has a half-hour offset: UTC+05:30, no letter abbreviation.
    let info = EpochZoneService::get_timezone_info_at("Asia/Kolkata", 1707580800).unwrap();
    assert_eq!(info.utc_offset, "UTC+05:30");
    assert_eq!(info.timestamp, 1707580800);
    assert_eq!(info.current_time, "2024-02-10T21:30:00+05:30");
}

#[test]
fn test_repeated_info_is_stable() {
    // Offset, abbreviation and DST flag depend only on (zone, instant).
    let a = EpochZoneService::get_timezone_info_at("Europe/London", 1707580800).unwrap();
    let b = EpochZoneService::get_timezone_info_at("Europe/London", 1707580800).unwrap();
    assert_eq!(a.utc_offset, b.utc_offset);
    assert_eq!(a.abbreviation, b.abbreviation);
    assert_eq!(a.is_dst, b.is_dst);
    assert_eq!(a.timestamp, b.timestamp);
}

#[test]
fn test_render_timestamp_equals_instant() {
    let reading = EpochZoneService::build_convert_info(1707580800, "Europe/London");
    assert_eq!(reading.timestamp, 1707580800);
    assert_eq!(reading.timezone, "Europe/London");
}

#[test]
fn test_info_error_message_exact() {
    let result = EpochZoneService::get_timezone_info("Invalid/Zone");
    assert_eq!(result.unwrap_err(), "Invalid timezone: Invalid/Zone");
}

#[test]
fn test_listing_stable_across_calls() {
    let a = EpochZoneService::get_all_timezones();
    let b = EpochZoneService::get_all_timezones();
    assert_eq!(a.len(), b.len());
    for (x, y) in a.iter().zip(b.iter()) {
        assert_eq!(x.name, y.name);
        assert_eq!(x.display_name, y.display_name);
    }
}

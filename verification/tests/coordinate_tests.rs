//! Coordinate resolution goes through the tzf-rs point-in-polygon oracle,
//! which the library treats as an outside dependency; the zone it names is
//! then rendered by the verified engine.

use epochzone::service::EpochZoneService;

#[test]
fn test_get_timezone_by_coordinates_tokyo() {
    let finder = tzf_rs::DefaultFinder::new();
    let tz_name = finder.get_tz_name(139.6503, 35.6762);
    assert_eq!(tz_name, "Asia/Tokyo");
    let result = EpochZoneService::get_timezone_info(tz_name);
    assert!(result.is_ok());
    assert_eq!(result.unwrap().timezone, "Asia/Tokyo");
}

#[test]
fn test_get_timezone_by_coordinates_new_york() {
    let finder = tzf_rs::DefaultFinder::new();
    let tz_name = finder.get_tz_name(-74.0060, 40.7128);
    assert_eq!(tz_name, "America/New_York");
    let result = EpochZoneService::get_timezone_info(tz_name);
    assert!(result.is_ok());
    assert_eq!(result.unwrap().timezone, "America/New_York");
}

#[test]
fn test_get_timezone_by_coordinates_london() {
    let finder = tzf_rs::DefaultFinder::new();
    let tz_name = finder.get_tz_name(-0.1278, 51.5074);
    assert_eq!(tz_name, "Europe/London");
    let result = EpochZoneService::get_timezone_info(tz_name);
    assert!(result.is_ok());
    assert_eq!(result.unwrap().timezone, "Europe/London");
}

#[test]
fn test_get_timezone_by_coordinates_ocean() {
    let finder = tzf_rs::DefaultFinder::new();
    // Middle of the Pacific Ocean: the oracle still names some zone
    // (nearest land timezone), so rendering it succeeds.
    let tz_name = finder.get_tz_name(-160.0, 0.0);
    assert!(!tz_name.is_empty());
    let result = EpochZoneService::get_timezone_info(tz_name);
    assert!(result.is_ok());
}

use alagappa_tools::clock::CivilTime;
use chrono::{Datelike, Local, TimeZone, Utc};

#[test]
fn converted_time_stands_as_it_is() {
    let t = CivilTime {
        timestamp: "2001-02-03T04:05:06+00:00".to_string(),
        date: "2001-02-03".to_string(),
        time: "04:05:06".to_string(),
    };
    assert_eq!(CivilTime::or_now(Some(t.clone())), t);
}

#[test]
fn date_and_time_are_projections_of_the_timestamp() {
    for _ in 0..50 {
        let t = CivilTime::or_now(None);
        let head = format!("{}T{}", t.date, t.time);
        assert!(t.timestamp.len() >= head.len());
        assert_eq!(&t.timestamp[..head.len()], head);
    }
}

#[test]
fn missing_time_is_replaced_by_now() {
    let before = Local::now();
    let t = CivilTime::or_now(None);
    let after = Local::now();
    assert_eq!(t.date.len(), 10);
    assert_eq!(t.time.len(), 8);
    assert!(t.timestamp.starts_with(&format!("{}T{}", t.date, t.time)));
    let year: i32 = t.date[..4].parse().unwrap();
    assert!(before.year() <= year && year <= after.year());
    let parsed = chrono::DateTime::parse_from_rfc3339(&t.timestamp).unwrap();
    assert!(before.timestamp() <= parsed.timestamp());
    assert!(parsed.timestamp() <= after.timestamp());
}

#[test]
fn every_device_timestamp_converts_to_local_civil_time() {
    for secs in [0u32, 1, 59, 86399, 86400, 951782400, 1700000000, 2147483647, 4102444800, u32::MAX]
    {
        let t = CivilTime::convert(secs).unwrap();
        let expected = Utc.timestamp_opt(secs as i64, 0).single().unwrap().with_timezone(&Local);
        assert_eq!(t.timestamp, expected.to_rfc3339());
        assert_eq!(t.date, expected.format("%Y-%m-%d").to_string());
        assert_eq!(t.time, expected.format("%H:%M:%S").to_string());
    }
}

#[test]
fn converted_timestamp_denotes_the_same_instant() {
    for secs in [0u32, 1234567890, u32::MAX] {
        let t = CivilTime::convert(secs).unwrap();
        let parsed = chrono::DateTime::parse_from_rfc3339(&t.timestamp).unwrap();
        assert_eq!(parsed.timestamp(), secs as i64);
        let offset = parsed.offset().local_minus_utc();
        assert!(-86400 < offset && offset < 86400);
        let local = Utc.timestamp_opt(secs as i64 + offset as i64, 0).single().unwrap();
        assert_eq!(t.date, local.format("%Y-%m-%d").to_string());
        assert_eq!(t.time, local.format("%H:%M:%S").to_string());
        assert_eq!(t.date.len(), 10);
        assert_eq!(t.time.len(), 8);
    }
}

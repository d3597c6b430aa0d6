use rustfs_core::serde_datetime::option::{deserialize, serialize};
use rustfs_core::serde_datetime::{
    format_rfc3339_text, legacy_format, parse_rfc3339_or_legacy, DateTimeError, OffsetTimestamp,
};
use std::collections::BTreeMap;
use time::{OffsetDateTime, UtcOffset};

fn to_json(expiry: &Option<OffsetTimestamp>) -> String {
    let text = serialize(expiry).unwrap();
    let mut wrapper = BTreeMap::new();
    wrapper.insert("expiry", text);
    serde_json::to_string(&wrapper).unwrap()
}

fn from_json(json: &str) -> Option<OffsetTimestamp> {
    let wrapper: BTreeMap<String, Option<String>> = serde_json::from_str(json).unwrap();
    deserialize(wrapper["expiry"].as_deref()).unwrap()
}

fn stamp(dt: OffsetDateTime) -> OffsetTimestamp {
    OffsetTimestamp {
        unix_nanos: dt.unix_timestamp_nanos(),
        offset_seconds: dt.offset().whole_seconds(),
    }
}

fn date_time(t: OffsetTimestamp) -> OffsetDateTime {
    OffsetDateTime::from_unix_timestamp_nanos(t.unix_nanos)
        .unwrap()
        .to_offset(UtcOffset::from_whole_seconds(t.offset_seconds).unwrap())
}

#[test]
fn test_serialize_none() {
    let json = to_json(&None);
    assert_eq!(json, r#"{"expiry":null}"#);
}

#[test]
fn test_serialize_some_roundtrip_rfc3339() {
    let dt = OffsetDateTime::from_unix_timestamp(1_700_000_000).unwrap();
    let json = to_json(&Some(stamp(dt)));
    let back = from_json(&json);
    assert_eq!(back.map(date_time), Some(dt));
}

#[test]
fn test_deserialize_null() {
    let json = r#"{"expiry":null}"#;
    let expiry = from_json(json);
    assert!(expiry.is_none());
}

#[test]
fn test_deserialize_rfc3339() {
    let json = r#"{"expiry":"2025-01-01T00:00:00Z"}"#;
    let expiry = from_json(json);
    assert!(expiry.is_some());
    let dt = date_time(expiry.unwrap());
    assert_eq!(dt.year(), 2025);
    assert_eq!(dt.month(), time::Month::January);
    assert_eq!(dt.day(), 1);
}

#[test]
fn test_deserialize_legacy_format() {
    let json = r#"{"expiry":"2025-03-07 12:30:00.000000000 +00:00:00"}"#;
    let expiry = from_json(json);
    assert!(expiry.is_some());
    let dt = date_time(expiry.unwrap());
    assert_eq!(dt.year(), 2025);
    assert_eq!(dt.month(), time::Month::March);
    assert_eq!(dt.day(), 7);
    assert_eq!(dt.hour(), 12);
    assert_eq!(dt.minute(), 30);
}

#[test]
fn serialize_writes_rfc3339_with_offset() {
    let t = OffsetTimestamp { unix_nanos: 1_700_000_000_500_000_000, offset_seconds: 3600 };
    assert_eq!(
        serialize(&Some(t)).unwrap(),
        Some("2023-11-14T23:13:20.5+01:00".to_string())
    );
    let utc = OffsetTimestamp { unix_nanos: 0, offset_seconds: 0 };
    assert_eq!(format_rfc3339_text(utc).unwrap(), "1970-01-01T00:00:00Z");
}

#[test]
fn serialize_refuses_offsets_with_seconds() {
    let t = OffsetTimestamp { unix_nanos: 0, offset_seconds: 30 };
    assert!(matches!(serialize(&Some(t)), Err(DateTimeError::Unwritable(_))));
}

#[test]
fn serialize_refuses_years_past_9999() {
    let t = OffsetTimestamp { unix_nanos: 253_402_300_800 * 1_000_000_000, offset_seconds: 0 };
    assert!(matches!(format_rfc3339_text(t), Err(DateTimeError::Unwritable(_))));
}

#[test]
fn rfc3339_keeps_the_written_offset() {
    let t = parse_rfc3339_or_legacy("2025-01-01T05:30:00+05:30").unwrap();
    assert_eq!(t, OffsetTimestamp { unix_nanos: 1_735_689_600 * 1_000_000_000, offset_seconds: 19_800 });
}

#[test]
fn legacy_layout_reads_offset_seconds() {
    let t = parse_rfc3339_or_legacy("2020-01-02 03:04:05.25 +06:07:08").unwrap();
    assert_eq!(t.offset_seconds, 6 * 3600 + 7 * 60 + 8);
    assert!(format_rfc3339_text(t).is_err());
}

#[test]
fn unreadable_text_is_refused() {
    assert!(matches!(parse_rfc3339_or_legacy("tomorrow"), Err(DateTimeError::Unreadable(_))));
    assert!(matches!(deserialize(Some("2025-13-01T00:00:00Z")), Err(DateTimeError::Unreadable(_))));
    assert!(matches!(deserialize(None), Ok(None)));
}

#[test]
fn legacy_format_names_every_component() {
    assert_eq!(
        legacy_format(),
        "[year]-[month]-[day] [hour]:[minute]:[second].[subsecond] [offset_hour sign:mandatory]:[offset_minute]:[offset_second]"
    );
}

#[test]
fn roundtrip_keeps_nanoseconds_and_offset() {
    let t = OffsetTimestamp { unix_nanos: -1_234_567_891, offset_seconds: -7 * 3600 - 30 * 60 };
    let text = serialize(&Some(t)).unwrap();
    assert_eq!(deserialize(text.as_deref()).unwrap(), Some(t));
}

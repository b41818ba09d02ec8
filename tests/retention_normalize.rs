use topic_logger::rotation::RotationPolicy;
use topic_logger::config::Config;
use topic_logger::naming::log_file_name;
use topic_logger::normalize::{
    ext_object, failure_record, normalize_payload, parsed_record, timestamp_secs,
};
use topic_logger::retention::{
    cutoff_secs, expired_flags, has_log_suffix, is_expired, retention_cutoff,
};
use topic_logger::stamp::Stamp;

fn stamp(year: i32, month: u32, day: u32, hour: u32, minute: u32, second: u32) -> Stamp {
    Stamp::from_fields(year, month, day, hour, minute, second).unwrap()
}

#[test]
fn retention_deletes_only_files_older_than_window() {
    // now is 2024-03-10 12:00:00, window 24 h: cutoff 2024-03-09 12:00:00
    let cutoff = stamp(2024, 3, 9, 12, 0, 0);
    let names = vec![
        log_file_name(&stamp(2024, 3, 10, 11, 0, 0), "t", 0), // 1 h
        log_file_name(&stamp(2024, 3, 9, 13, 0, 0), "t", 1),  // 23 h
        log_file_name(&stamp(2024, 3, 9, 11, 0, 0), "t", 2),  // 25 h
        log_file_name(&stamp(2024, 3, 8, 12, 0, 0), "t", 3),  // 48 h
        "garbage.jsonl".to_string(),
        "2024-03-01_00-00-00-t-00.txt".to_string(),
        "1990-99-01_00-00-00-t-00.jsonl".to_string(),
    ];
    assert_eq!(
        expired_flags(&names, &cutoff),
        vec![false, false, true, true, false, false, false]
    );
}

#[test]
fn expiry_is_strict() {
    let cutoff = stamp(2024, 3, 9, 12, 0, 0);
    assert!(!is_expired(&log_file_name(&cutoff, "t", 0), &cutoff));
    assert!(is_expired("2024-03-09_11-59-59-t-00.jsonl", &cutoff));
}

#[test]
fn log_suffix_recognized() {
    assert!(has_log_suffix("a.jsonl"));
    assert!(has_log_suffix(".jsonl"));
    assert!(!has_log_suffix("jsonl"));
    assert!(!has_log_suffix("a.json"));
}

#[test]
fn retention_off_without_positive_hours() {
    assert_eq!(retention_cutoff(1_700_000_000, 0), None);
    assert_eq!(retention_cutoff(1_700_000_000, -5), None);
    assert!(retention_cutoff(1_700_000_000, 24).is_some());
}

#[test]
fn timestamp_units() {
    assert_eq!(timestamp_secs(1_700_000_000), 1_700_000_000);
    assert_eq!(timestamp_secs(1_700_000_000_123), 1_700_000_000);
    assert_eq!(timestamp_secs(99_999_999_999), 99_999_999_999);
    assert_eq!(timestamp_secs(100_000_000_000), 100_000_000);
    assert_eq!(timestamp_secs(-100_000_000_999), -100_000_000);
    assert_eq!(timestamp_secs(i64::MIN), -9_223_372_036_854_775);
}

#[test]
fn not_json_gives_failure_record() {
    assert_eq!(
        normalize_payload(b"not-json"),
        r#"{"ext":{},"raw":{"message":"json parse failed"}}"#
    );
    assert_eq!(failure_record(), r#"{"ext":{},"raw":{"message":"json parse failed"}}"#);
}

#[test]
fn json_with_timestamp_gets_local_time() {
    let line = normalize_payload(br#"{"timestamp": 1700000000, "value": 5}"#);
    let prefix = r#"{"ext":{"timestamp":""#;
    assert!(line.starts_with(prefix), "{}", line);
    let rest = &line[prefix.len()..];
    let stamp = &rest[..19];
    let b = stamp.as_bytes();
    assert_eq!((b[4], b[7], b[10], b[13], b[16]), (b'-', b'-', b' ', b':', b':'));
    assert!(stamp.starts_with("2023-11-1"));
    assert_eq!(&rest[19..], r#""},"raw":{"timestamp":1700000000,"value":5}}"#);
}

#[test]
fn json_without_timestamp_has_empty_ext() {
    assert_eq!(normalize_payload(br#"{"value": [1, 2]}"#), r#"{"ext":{},"raw":{"value":[1,2]}}"#);
    assert_eq!(normalize_payload(b"42"), r#"{"ext":{},"raw":42}"#);
    assert_eq!(
        normalize_payload(br#"{"timestamp":"soon"}"#),
        r#"{"ext":{},"raw":{"timestamp":"soon"}}"#
    );
}

#[test]
fn invalid_utf8_is_decoded_lossily() {
    assert_eq!(
        normalize_payload(&[0xff, b'x']),
        r#"{"ext":{},"raw":{"message":"json parse failed"}}"#
    );
}

#[test]
fn record_forms() {
    let s = stamp(2023, 11, 14, 22, 13, 20);
    assert_eq!(ext_object(None), "{}");
    assert_eq!(ext_object(Some(None)), r#"{"timestamp":""}"#);
    assert_eq!(ext_object(Some(Some(s))), r#"{"timestamp":"2023-11-14 22:13:20"}"#);
    assert_eq!(
        parsed_record("[1]", Some(Some(s))),
        r#"{"ext":{"timestamp":"2023-11-14 22:13:20"},"raw":[1]}"#
    );
}

#[test]
fn config_defaults_and_policy() {
    let c = Config::default();
    assert_eq!(c.log_dir, "logs");
    assert_eq!(c.topics, vec!["subscribe001".to_string()]);
    assert_eq!(c.port, 41883);
    assert!(!c.retention_enabled());
    let p = c.rotation_policy().unwrap();
    assert_eq!(p.max_file_size, 100 * 1024 * 1024);
    assert_eq!(p.idle_timeout_ms, 1000);
    let big = Config { max_file_size_mb: usize::MAX, timeout_secs: u64::MAX, ..Config::default() };
    assert_eq!(big.max_file_size_bytes(), None);
    assert_eq!(big.rotation_policy(), None);
    assert_eq!(big.idle_timeout_ms(), u64::MAX);
}

#[test]
fn cutoff_arithmetic() {
    assert_eq!(cutoff_secs(1_700_000_000, 24), Some(1_700_000_000 - 86_400));
    assert_eq!(cutoff_secs(1_700_000_000, 0), None);
    assert_eq!(cutoff_secs(i64::MIN + 3599, 1), None);
    assert_eq!(cutoff_secs(i64::MIN + 3600, 1), Some(i64::MIN));
    assert_eq!(cutoff_secs(0, i64::MAX), None);
}

#[test]
fn fractional_and_millisecond_timestamps_are_read() {
    for payload in [&br#"{"timestamp": 1700000000.7}"#[..], &br#"{"timestamp": 1700000000123}"#[..]] {
        let line = normalize_payload(payload);
        let prefix = r#"{"ext":{"timestamp":"2023-11-1"#;
        assert!(line.starts_with(prefix), "{}", line);
    }
    let line = normalize_payload(br#"{"timestamp": 1e300}"#);
    assert!(line.starts_with(r#"{"ext":{"timestamp":""},"raw":"#), "{}", line);
}

#[test]
fn policy_from_limits() {
    let p = RotationPolicy::from_limits(200, 3);
    assert_eq!((p.max_file_size, p.idle_timeout_ms), (200, 3000));
    assert_eq!(RotationPolicy::from_limits(1, u64::MAX).idle_timeout_ms, u64::MAX);
}

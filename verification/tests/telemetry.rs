use axum_api_template::clock::{now_utc, timestamp_from_epoch_offset, Timestamp};
use axum_api_template::telemetry::MakeRequestUuid;

#[test]
fn request_ids_are_hyphenated_v4_uuids() {
    let mut maker = MakeRequestUuid;
    let id = maker.make_request_id();
    assert_eq!(id.len(), 36);
    for (i, c) in id.chars().enumerate() {
        if i == 8 || i == 13 || i == 18 || i == 23 {
            assert_eq!(c, '-');
        } else {
            assert!(c.is_ascii_hexdigit() && !c.is_ascii_uppercase());
        }
    }
    assert_eq!(id.chars().nth(14), Some('4'));
    assert!(matches!(id.chars().nth(19), Some('8' | '9' | 'a' | 'b')));
    let parsed = uuid::Uuid::parse_str(&id).unwrap();
    assert_eq!(parsed.get_version_num(), 4);
    assert!(axum::http::HeaderValue::from_str(&id).is_ok());
}

#[test]
fn request_ids_differ() {
    let mut maker = MakeRequestUuid;
    assert_ne!(maker.make_request_id(), maker.make_request_id());
}

#[test]
fn clock_reads_a_time_after_1970() {
    let t = now_utc();
    assert!(t.seconds > 1_600_000_000);
    assert!(t.nanoseconds < 1_000_000_000);
}

#[test]
fn timestamps_after_the_epoch() {
    assert_eq!(timestamp_from_epoch_offset(Ok((0, 0))), Timestamp { seconds: 0, nanoseconds: 0 });
    assert_eq!(
        timestamp_from_epoch_offset(Ok((1_700_000_000, 5))),
        Timestamp { seconds: 1_700_000_000, nanoseconds: 5 }
    );
    assert_eq!(
        timestamp_from_epoch_offset(Ok((u64::MAX, 1))),
        Timestamp { seconds: i64::MAX, nanoseconds: 999_999_999 }
    );
}

#[test]
fn timestamps_before_the_epoch() {
    assert_eq!(timestamp_from_epoch_offset(Err((1, 0))), Timestamp { seconds: -1, nanoseconds: 0 });
    assert_eq!(
        timestamp_from_epoch_offset(Err((0, 250_000_000))),
        Timestamp { seconds: -1, nanoseconds: 750_000_000 }
    );
    assert_eq!(
        timestamp_from_epoch_offset(Err((i64::MAX as u64, 1))),
        Timestamp { seconds: i64::MIN, nanoseconds: 999_999_999 }
    );
    assert_eq!(timestamp_from_epoch_offset(Err((u64::MAX, 0))), Timestamp { seconds: i64::MIN, nanoseconds: 0 });
}

use calendar_notifier::time::{Timestamp, MAX_SECS, MIN_SECS};
use chrono::{DateTime, Timelike, Utc};

fn ts(secs: i64, nanos: u32) -> Timestamp {
    Timestamp { secs, nanos }
}

#[test]
fn bounds_match_chrono() {
    assert_eq!(DateTime::<Utc>::MIN_UTC.timestamp(), MIN_SECS);
    assert_eq!(DateTime::<Utc>::MAX_UTC.timestamp(), MAX_SECS);
    assert!(DateTime::from_timestamp(MIN_SECS, 0).is_some());
    assert!(DateTime::from_timestamp(MAX_SECS, 999_999_999).is_some());
    assert!(DateTime::from_timestamp(MIN_SECS - 1, 0).is_none());
    assert!(DateTime::from_timestamp(MAX_SECS + 1, 0).is_none());
}

#[test]
fn le_orders_by_seconds_then_nanos() {
    assert!(ts(5, 9).le(&ts(6, 0)));
    assert!(ts(5, 1).le(&ts(5, 1)));
    assert!(ts(5, 1).le(&ts(5, 2)));
    assert!(!ts(5, 3).le(&ts(5, 2)));
    assert!(!ts(7, 0).le(&ts(6, 999)));
}

#[test]
fn second_of_day_counts_from_utc_midnight() {
    assert_eq!(ts(0, 0).second_of_day(), 0);
    assert_eq!(ts(86_399, 0).second_of_day(), 86_399);
    assert_eq!(ts(86_400, 0).second_of_day(), 0);
    assert_eq!(ts(-1, 0).second_of_day(), 86_399);
    assert_eq!(ts(1_617_912_000, 0).second_of_day(), 72_000);
}

fn chrono_with_hour(t: Timestamp, h: u32) -> Option<Timestamp> {
    DateTime::from_timestamp(t.secs, t.nanos)
        .unwrap()
        .with_hour(h)
        .map(|d| ts(d.timestamp(), d.timestamp_subsec_nanos()))
}

fn chrono_with_minute(t: Timestamp, m: u32) -> Option<Timestamp> {
    DateTime::from_timestamp(t.secs, t.nanos)
        .unwrap()
        .with_minute(m)
        .map(|d| ts(d.timestamp(), d.timestamp_subsec_nanos()))
}

#[test]
fn with_hour_and_minute_agree_with_chrono() {
    let samples = [
        ts(1_617_912_345, 123_456_789),
        ts(0, 0),
        ts(-1, 5),
        ts(-90_061, 0),
        ts(1_700_000_000, 999_999_999),
        ts(MAX_SECS, 0),
        ts(MIN_SECS, 0),
    ];
    for t in samples {
        for h in [0u32, 1, 7, 12, 23, 24, 99] {
            assert_eq!(t.with_hour(h), chrono_with_hour(t, h), "hour {} of {:?}", h, t);
        }
        for m in [0u32, 1, 30, 59, 60] {
            assert_eq!(t.with_minute(m), chrono_with_minute(t, m), "minute {} of {:?}", m, t);
        }
    }
}

#[test]
fn with_hour_rejects_hours_past_the_day() {
    assert_eq!(ts(100, 0).with_hour(24), None);
    assert_eq!(ts(100, 0).with_minute(60), None);
}

#[test]
fn with_hour_zero_example() {
    // 2021-04-08T20:05:45Z -> 2021-04-08T00:05:45Z
    assert_eq!(ts(1_617_912_345, 7).with_hour(0), Some(ts(1_617_840_345, 7)));
    // then minute zero -> 2021-04-08T00:00:45Z
    assert_eq!(ts(1_617_840_345, 7).with_minute(0), Some(ts(1_617_840_045, 7)));
}

#[test]
fn plus_seconds_adds_seconds() {
    assert_eq!(ts(10, 5).plus_seconds(3600), ts(3610, 5));
    assert_eq!(ts(10, 5).plus_seconds(-20), ts(-10, 5));
    let d = DateTime::from_timestamp(1_617_912_345, 5).unwrap() + chrono::Duration::seconds(3599);
    assert_eq!(ts(1_617_912_345, 5).plus_seconds(3599), ts(d.timestamp(), d.timestamp_subsec_nanos()));
}

use chrono::{DateTime, TimeDelta, Utc};
use media_pipeline::time::{Timestamp, MAX_DELTA_SECS, MAX_UNIX_SECS, MIN_UNIX_SECS};

fn chrono_add(secs: i64, delta: i64) -> Option<i64> {
    let t = DateTime::from_timestamp(secs, 0)?;
    let d = TimeDelta::try_seconds(delta)?;
    t.checked_add_signed(d).map(|r| r.timestamp())
}

#[test]
fn range_matches_chrono() {
    assert_eq!(DateTime::<Utc>::MIN_UTC.timestamp(), MIN_UNIX_SECS);
    assert_eq!(DateTime::<Utc>::MAX_UTC.timestamp(), MAX_UNIX_SECS);
    // The first second chrono holds, and none before it.
    assert!(DateTime::from_timestamp(MIN_UNIX_SECS, 0).is_some());
    assert!(DateTime::from_timestamp(MIN_UNIX_SECS - 1, 0).is_none());
    assert!(DateTime::from_timestamp(MAX_UNIX_SECS, 0).is_some());
    assert!(DateTime::from_timestamp(MAX_UNIX_SECS + 1, 0).is_none());
    assert!(TimeDelta::try_seconds(MAX_DELTA_SECS).is_some());
    assert!(TimeDelta::try_seconds(MAX_DELTA_SECS + 1).is_none());
    assert!(TimeDelta::try_seconds(-MAX_DELTA_SECS).is_some());
    assert!(TimeDelta::try_seconds(-MAX_DELTA_SECS - 1).is_none());
}

#[test]
fn adding_seconds_agrees_with_chrono() {
    let cases: [(i64, i64); 11] = [
        (MIN_UNIX_SECS + 86_400, -86_400),
        (MIN_UNIX_SECS + 86_400, -86_401),
        (MIN_UNIX_SECS + 1, -1),
        (1_700_000_000, 900),
        (1_700_000_000, -900),
        (MAX_UNIX_SECS - 10, 10),
        (MAX_UNIX_SECS - 10, 11),
        (MIN_UNIX_SECS + 10, -10),
        (MIN_UNIX_SECS + 10, -11),
        (0, MAX_DELTA_SECS),
        (0, i64::MAX),
    ];
    for (secs, delta) in cases {
        let t = Timestamp { secs, nanos: 0 };
        let ours = if t.can_add_seconds(delta) { Some(t.plus_seconds(delta).secs) } else { None };
        assert_eq!(ours, chrono_add(secs, delta), "{} + {}", secs, delta);
    }
}

#[test]
fn ordering_matches_chrono() {
    let a = Timestamp { secs: 10, nanos: 5 };
    let b = Timestamp { secs: 10, nanos: 6 };
    let c = Timestamp { secs: 11, nanos: 0 };
    assert!(a.is_before(&b));
    assert!(b.is_before(&c));
    assert!(!b.is_before(&a));
    assert!(!a.is_before(&a));
    let ca = DateTime::from_timestamp(10, 5).unwrap();
    let cb = DateTime::from_timestamp(10, 6).unwrap();
    assert_eq!(a.is_before(&b), ca < cb);
}

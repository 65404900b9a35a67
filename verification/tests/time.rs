use chrono::{DateTime, Utc};
use codex_usage_proxy::time::{parse_timestamp, Timestamp, FIRST_SECOND, LAST_SECOND};

fn at(secs: i64, nanos: u32) -> Timestamp {
    Timestamp::from_parts(secs, nanos).unwrap()
}

#[test]
fn timestamps_are_read_from_rfc3339() {
    let point = parse_timestamp("2025-01-02T03:04:05.678Z").unwrap();
    assert_eq!(point.secs(), 1_735_787_045);
    assert_eq!(point.nanos(), 678_000_000);
    let shifted = parse_timestamp("2025-01-02T05:04:05.678+02:00").unwrap();
    assert_eq!(shifted, point);
    assert_eq!(parse_timestamp("1969-12-31T23:59:59Z").unwrap(), at(-1, 0));
}

#[test]
fn other_texts_are_no_timestamps() {
    for text in ["", "yesterday", "2025-01-02", "2025-01-02T03:04:05", "2025-13-02T03:04:05Z"] {
        assert_eq!(parse_timestamp(text), None);
    }
}

#[test]
fn leap_seconds_are_read() {
    let leap = parse_timestamp("2016-12-31T23:59:60.5Z").unwrap();
    assert_eq!(leap.secs(), 1_483_228_799);
    assert_eq!(leap.nanos(), 1_500_000_000);
    let elsewhere = parse_timestamp("2017-01-01T05:29:60.5+05:30").unwrap();
    assert_eq!(elsewhere, leap);
}

#[test]
fn the_calendar_has_bounds() {
    assert_eq!(FIRST_SECOND, DateTime::<Utc>::MIN_UTC.timestamp());
    assert_eq!(LAST_SECOND, DateTime::<Utc>::MAX_UTC.timestamp());
    assert!(Timestamp::from_parts(FIRST_SECOND, 0).is_some());
    assert!(Timestamp::from_parts(LAST_SECOND, 999_999_999).is_some());
    assert_eq!(Timestamp::from_parts(FIRST_SECOND - 1, 0), None);
    assert_eq!(Timestamp::from_parts(LAST_SECOND + 1, 0), None);
    assert_eq!(Timestamp::from_parts(0, 2_000_000_000), None);
    assert_eq!(Timestamp::from_parts(0, 1_000_000_000), None);
    assert!(Timestamp::from_parts(59, 1_000_000_000).is_some());
    assert!(Timestamp::from_parts(-1, 1_999_999_999).is_some());
}

#[test]
fn points_are_those_of_the_calendar() {
    let seconds: [i64; 9] =
        [FIRST_SECOND, FIRST_SECOND + 59, -61, -60, -1, 0, 59, 119, LAST_SECOND];
    let fractions: [u32; 5] = [0, 999_999_999, 1_000_000_000, 1_999_999_999, 2_000_000_000];
    for secs in seconds {
        for nanos in fractions {
            let known = DateTime::<Utc>::from_timestamp(secs, nanos).is_some();
            assert_eq!(Timestamp::from_parts(secs, nanos).is_some(), known, "{} {}", secs, nanos);
        }
    }
}

#[test]
fn now_is_the_present() {
    let before: i64 = Utc::now().timestamp();
    let now: i64 = Timestamp::now().secs();
    let after: i64 = Utc::now().timestamp();
    assert!(before <= now && now <= after);
    assert!(now >= 0);
    assert!(Timestamp::now().nanos() < 1_000_000_000);
}

#[test]
fn seconds_between_points_are_whole() {
    assert_eq!(at(10, 0).seconds_since(at(7, 0)), 3);
    assert_eq!(at(7, 0).seconds_since(at(10, 0)), -3);
    assert_eq!(at(10, 0).seconds_since(at(7, 1)), 2);
    assert_eq!(at(7, 1).seconds_since(at(10, 0)), -2);
    assert_eq!(at(0, 0).seconds_since(at(0, 999_999_999)), 0);
    assert_eq!(at(LAST_SECOND, 0).seconds_since(at(FIRST_SECOND, 0)), LAST_SECOND - FIRST_SECOND);
}

#[test]
fn leap_seconds_count_in_between() {
    assert_eq!(at(60, 0).seconds_since(at(59, 0)), 1);
    assert_eq!(at(60, 0).seconds_since(at(59, 1_000_000_000)), 1);
    assert_eq!(at(59, 1_500_000_000).seconds_since(at(59, 0)), 1);
    assert_eq!(at(60, 500_000_000).seconds_since(at(59, 1_500_000_000)), 1);
    assert_eq!(at(86_400, 0).seconds_since(at(86_399, 1_000_000_000)), 0);
}

/// The whole nanoseconds from `earlier` to `later`, each given in seconds and
/// nanoseconds.
fn elapsed(later: (i64, u32), earlier: (i64, u32)) -> i128 {
    let day_later: i64 = later.0.rem_euclid(86_400);
    let day_earlier: i64 = earlier.0.rem_euclid(86_400);
    let leap: i128 = if day_later > day_earlier && earlier.1 >= 1_000_000_000 {
        1
    } else if day_later < day_earlier && later.1 >= 1_000_000_000 {
        -1
    } else {
        0
    };
    (i128::from(later.0) - i128::from(earlier.0) + leap) * 1_000_000_000 + i128::from(later.1)
        - i128::from(earlier.1)
}

#[test]
fn seconds_between_points_are_as_stated() {
    let points: [(i64, u32); 14] = [
        (FIRST_SECOND, 0),
        (-86_401, 999_999_999),
        (-86_401, 1_999_999_999),
        (-1, 0),
        (-1, 1_000_000_000),
        (0, 0),
        (0, 999_999_999),
        (59, 1_000_000_000),
        (59, 1_999_999_999),
        (60, 0),
        (86_399, 1_500_000_000),
        (86_400, 1),
        (172_799, 1_000_000_001),
        (LAST_SECOND, 999_999_999),
    ];
    for later in points {
        for earlier in points {
            let expected: i128 = elapsed(later, earlier) / 1_000_000_000;
            let found: i64 = at(later.0, later.1).seconds_since(at(earlier.0, earlier.1));
            assert_eq!(i128::from(found), expected, "{:?} {:?}", later, earlier);
        }
    }
}

#[test]
fn dates_are_those_of_utc() {
    assert_eq!(at(0, 0).date_text(), "1970-01-01");
    assert_eq!(at(-1, 0).date_text(), "1969-12-31");
    assert_eq!(at(1_735_787_045, 5).date_text(), "2025-01-02");
    assert_eq!(at(86_399, 1_000_000_000).date_text(), "1970-01-01");
}

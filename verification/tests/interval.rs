use rust_bot::models::interval::Interval;
use rust_bot::models::strategy_orientation::StrategyOrientation;
use rust_bot::models::timestamp::Timestamp;

#[test]
fn interval_millis_table() {
    assert_eq!(Interval::Minute1.to_millis(), 60_000);
    assert_eq!(Interval::Minute5.to_millis(), 300_000);
    assert_eq!(Interval::Minute15.to_millis(), 900_000);
    assert_eq!(Interval::Minute30.to_millis(), 1_800_000);
    assert_eq!(Interval::Hour1.to_millis(), 3_600_000);
    assert_eq!(Interval::Hour4.to_millis(), 14_400_000);
    assert_eq!(Interval::Hour12.to_millis(), 43_200_000);
    assert_eq!(Interval::Day1.to_millis(), 86_400_000);
    assert_eq!(Interval::Day5.to_millis(), 432_000_000);
    assert_eq!(Interval::Week1.to_millis(), 604_800_000);
}

#[test]
fn interval_tolerance_table() {
    assert_eq!(Interval::Minute1.max_diff_millis(), 1_000);
    assert_eq!(Interval::Minute5.max_diff_millis(), 5_000);
    assert_eq!(Interval::Minute15.max_diff_millis(), 5_000);
    assert_eq!(Interval::Minute30.max_diff_millis(), 5_000);
    assert_eq!(Interval::Hour1.max_diff_millis(), 60_000);
    assert_eq!(Interval::Hour4.max_diff_millis(), 60_000);
    assert_eq!(Interval::Hour12.max_diff_millis(), 60_000);
    assert_eq!(Interval::Day1.max_diff_millis(), 3_600_000);
    assert_eq!(Interval::Day5.max_diff_millis(), 3_600_000);
    assert_eq!(Interval::Week1.max_diff_millis(), 3_600_000);
}

#[test]
fn interval_labels() {
    assert_eq!(Interval::Minute1.label(), "1 Minute");
    assert_eq!(Interval::Hour1.label(), "Hourly");
    assert_eq!(Interval::Day1.label(), "Daily");
    assert_eq!(Interval::Week1.label(), "Weekly");
    assert_eq!(StrategyOrientation::Long.label(), "Long");
    assert_eq!(StrategyOrientation::Short.label(), "Short");
}

fn at(secs: i64, nanos: u32) -> Timestamp {
    Timestamp::new(secs, nanos)
}

#[test]
fn subsequent_candles_within_tolerance() {
    let day = 86_400i64;
    let hour = 3_600i64;
    let last = 1_700_000_000i64;
    let l = at(last, 0);
    assert!(Interval::Day1.is_subsequent(&l, &at(last + day, 0)));
    assert!(Interval::Day1.is_subsequent(&l, &at(last + day - hour, 0)));
    assert!(!Interval::Day1.is_subsequent(&l, &at(last + day - hour - 1, 999_999_999)));
    assert!(Interval::Day1.is_subsequent(&l, &at(last + day + hour - 1, 999_999_999)));
    assert!(!Interval::Day1.is_subsequent(&l, &at(last + day + hour, 0)));
    assert!(!Interval::Day1.is_subsequent(&l, &at(last + 2 * day, 0)));
    assert!(!Interval::Day1.is_subsequent(&l, &l));
}

#[test]
fn subsequent_is_judged_to_the_nanosecond() {
    // 23 hours less one nanosecond: outside a daily candle's tolerance,
    // though both stamps fall on the same millisecond boundary.
    let l = at(1_700_000_000, 1);
    assert!(!Interval::Day1.is_subsequent(&l, &at(1_700_000_000 + 82_800, 0)));
    assert!(Interval::Day1.is_subsequent(&l, &at(1_700_000_000 + 82_800, 1)));
    // One hour later less one nanosecond is still inside it.
    assert!(Interval::Day1.is_subsequent(&l, &at(1_700_000_000 + 90_000, 0)));
    assert!(!Interval::Day1.is_subsequent(&l, &at(1_700_000_000 + 90_000, 1)));
}

#[test]
fn leap_seconds_are_measured_as_chrono_measures_them() {
    // 2015-06-30, the day that ended with a leap second.
    let day = 1_435_622_400i64;
    let hms = |h: i64, m: i64, s: i64| day + h * 3_600 + m * 60 + s;
    // 03:00:59 plus a leap second, less 03:00:59: one second.
    assert_eq!(at(hms(3, 0, 59), 1_000_000_000).nanos_since(&at(hms(3, 0, 59), 0)), 1_000_000_000);
    // 03:00:00 less 02:59:59 plus a leap second: one second.
    assert_eq!(at(hms(3, 0, 0), 0).nanos_since(&at(hms(2, 59, 59), 1_000_000_000)), 1_000_000_000);
    // From one leap second to the next a minute later: sixty-one seconds.
    assert_eq!(
        at(hms(3, 0, 59), 1_000_000_000).nanos_since(&at(hms(2, 59, 59), 1_000_000_000)),
        61_000_000_000
    );
    // 01:00:00 the next day less 23:59:60.5: an hour less half a second.
    let leap = at(hms(23, 59, 59), 1_500_000_000);
    assert_eq!(at(day + 86_400 + 3_600, 0).nanos_since(&leap), 3_599_500_000_000);
    // A minute candle one minute after the leap second follows it.
    assert!(Interval::Minute1.is_subsequent(&leap, &at(day + 86_400 + 59, 500_000_000)));
}

#[test]
fn timestamp_millis() {
    assert_eq!(at(1_700_000_000, 123_456_789).millis(), 1_700_000_000_123);
    assert_eq!(at(-1, 999_000_000).millis(), -1);
    assert_eq!(at(1_483_228_799, 1_500_000_000).millis(), 1_483_228_800_500);
}

#[test]
fn subsequent_at_extreme_timestamps() {
    assert!(!Interval::Minute1.is_subsequent(&at(i64::MIN, 0), &at(i64::MAX, 0)));
    assert!(!Interval::Minute1.is_subsequent(&at(i64::MAX, 0), &at(i64::MIN, 0)));
}

fn utc(y: i32, mo: u32, d: u32, h: u32, mi: u32, s: u32, milli: u32) -> chrono::DateTime<chrono::Utc> {
    chrono::NaiveDate::from_ymd_opt(y, mo, d)
        .unwrap()
        .and_hms_milli_opt(h, mi, s, milli)
        .unwrap()
        .and_utc()
}

fn stamp_of(t: &chrono::DateTime<chrono::Utc>) -> Timestamp {
    at(t.timestamp(), t.timestamp_subsec_nanos())
}

#[test]
fn nanos_since_agrees_with_chrono() {
    let times = [
        utc(2015, 6, 30, 3, 0, 59, 0),
        utc(2015, 6, 30, 3, 0, 59, 1_000),
        utc(2015, 6, 30, 3, 0, 0, 0),
        utc(2015, 6, 30, 2, 59, 59, 1_000),
        utc(2015, 6, 30, 23, 59, 59, 1_500),
        utc(2015, 7, 1, 0, 0, 0, 500),
        utc(2015, 7, 1, 1, 0, 0, 0),
        utc(1969, 12, 31, 23, 59, 59, 999),
        utc(2024, 2, 29, 12, 30, 15, 123),
    ];
    for a in &times {
        for b in &times {
            let expected = b.signed_duration_since(*a).num_nanoseconds().unwrap() as i128;
            assert_eq!(stamp_of(b).nanos_since(&stamp_of(a)), expected, "{} since {}", b, a);
        }
    }
}

use crate::models::timestamp::{lemma_nanos_between_plain, nanos_between, Timestamp};
use vstd::prelude::*;

verus! {

/// Length of one candle of a time series.
#[derive(Debug, Clone, Copy, PartialEq, Eq, Hash, Structural)]
pub enum Interval {
    Minute1,
    Minute5,
    Minute15,
    Minute30,
    Hour1,
    Hour4,
    Hour12,
    Day1,
    Day5,
    Week1,
}

pub const MILLIS_PER_SECOND: i64 = 1000;
pub const MILLIS_PER_MINUTE: i64 = 60_000;
pub const MILLIS_PER_HOUR: i64 = 3_600_000;
pub const MILLIS_PER_DAY: i64 = 86_400_000;
pub const MILLIS_PER_WEEK: i64 = 604_800_000;

/// Length of an interval, in milliseconds.
pub open spec fn interval_millis(i: Interval) -> int {
    match i {
        Interval::Minute1 => 1 * MILLIS_PER_MINUTE,
        Interval::Minute5 => 5 * MILLIS_PER_MINUTE,
        Interval::Minute15 => 15 * MILLIS_PER_MINUTE,
        Interval::Minute30 => 30 * MILLIS_PER_MINUTE,
        Interval::Hour1 => 1 * MILLIS_PER_HOUR,
        Interval::Hour4 => 4 * MILLIS_PER_HOUR,
        Interval::Hour12 => 12 * MILLIS_PER_HOUR,
        Interval::Day1 => 1 * MILLIS_PER_DAY,
        Interval::Day5 => 5 * MILLIS_PER_DAY,
        Interval::Week1 => 1 * MILLIS_PER_WEEK,
    }
}

/// Largest deviation from the interval length, in milliseconds, at which two
/// candles still count as subsequent.
pub open spec fn interval_tolerance_millis(i: Interval) -> int {
    match i {
        Interval::Minute1 => 1 * MILLIS_PER_SECOND,
        Interval::Minute5 => 5 * MILLIS_PER_SECOND,
        Interval::Minute15 => 5 * MILLIS_PER_SECOND,
        Interval::Minute30 => 5 * MILLIS_PER_SECOND,
        Interval::Hour1 => 1 * MILLIS_PER_MINUTE,
        Interval::Hour4 => 1 * MILLIS_PER_MINUTE,
        Interval::Hour12 => 1 * MILLIS_PER_MINUTE,
        Interval::Day1 => 1 * MILLIS_PER_HOUR,
        Interval::Day5 => 1 * MILLIS_PER_HOUR,
        Interval::Week1 => 1 * MILLIS_PER_HOUR,
    }
}

/// A candle stamped `new` follows one stamped `last` when the time between
/// them lies in `[step - tolerance, step + tolerance)`, measured to the
/// nanosecond.
pub open spec fn follows(i: Interval, last: Timestamp, new: Timestamp) -> bool {
    let diff = nanos_between(last, new);
    (interval_millis(i) - interval_tolerance_millis(i)) * 1_000_000 <= diff
        && diff < (interval_millis(i) + interval_tolerance_millis(i)) * 1_000_000
}

impl Interval {
    /// The interval's length in milliseconds.
    pub fn to_millis(&self) -> (ms: i64)
        ensures
            ms == interval_millis(*self),
            ms > 0,
    {
        match self {
            Interval::Minute1 => MILLIS_PER_MINUTE,
            Interval::Minute5 => 5 * MILLIS_PER_MINUTE,
            Interval::Minute15 => 15 * MILLIS_PER_MINUTE,
            Interval::Minute30 => 30 * MILLIS_PER_MINUTE,
            Interval::Hour1 => MILLIS_PER_HOUR,
            Interval::Hour4 => 4 * MILLIS_PER_HOUR,
            Interval::Hour12 => 12 * MILLIS_PER_HOUR,
            Interval::Day1 => MILLIS_PER_DAY,
            Interval::Day5 => 5 * MILLIS_PER_DAY,
            Interval::Week1 => MILLIS_PER_WEEK,
        }
    }

    /// The acceptable deviation, in milliseconds, between the distance of two
    /// candles and the interval length for the candles to still count as
    /// subsequent in a time series.
    pub fn max_diff_millis(&self) -> (ms: i64)
        ensures
            ms == interval_tolerance_millis(*self),
            0 < ms < interval_millis(*self),
    {
        match self {
            Interval::Minute1 => MILLIS_PER_SECOND,
            Interval::Minute5 => 5 * MILLIS_PER_SECOND,
            Interval::Minute15 => 5 * MILLIS_PER_SECOND,
            Interval::Minute30 => 5 * MILLIS_PER_SECOND,
            Interval::Hour1 => MILLIS_PER_MINUTE,
            Interval::Hour4 => MILLIS_PER_MINUTE,
            Interval::Hour12 => MILLIS_PER_MINUTE,
            Interval::Day1 => MILLIS_PER_HOUR,
            Interval::Day5 => MILLIS_PER_HOUR,
            Interval::Week1 => MILLIS_PER_HOUR,
        }
    }

    /// Whether a candle stamped `new` is the one right after a candle
    /// stamped `last`.
    pub fn is_subsequent(&self, last: &Timestamp, new: &Timestamp) -> (ok: bool)
        ensures
            ok == follows(*self, *last, *new),
    {
        let diff: i128 = new.nanos_since(last);
        let step: i128 = self.to_millis() as i128 * 1_000_000;
        let delta: i128 = self.max_diff_millis() as i128 * 1_000_000;
        step - delta <= diff && diff < step + delta
    }
}

} // verus!

verus! {

/// The human readable name of an interval.
pub open spec fn interval_label(i: Interval) -> Seq<char> {
    match i {
        Interval::Minute1 => "1 Minute"@,
        Interval::Minute5 => "5 Minute"@,
        Interval::Minute15 => "15 Minute"@,
        Interval::Minute30 => "30 Minute"@,
        Interval::Hour1 => "Hourly"@,
        Interval::Hour4 => "4 Hour"@,
        Interval::Hour12 => "12 Hour"@,
        Interval::Day1 => "Daily"@,
        Interval::Day5 => "5 Day"@,
        Interval::Week1 => "Weekly"@,
    }
}

impl Interval {
    /// The name under which the interval is shown to users.
    pub fn label(&self) -> (s: &'static str)
        ensures
            s@ == interval_label(*self),
    {
        match self {
            Interval::Minute1 => "1 Minute",
            Interval::Minute5 => "5 Minute",
            Interval::Minute15 => "15 Minute",
            Interval::Minute30 => "30 Minute",
            Interval::Hour1 => "Hourly",
            Interval::Hour4 => "4 Hour",
            Interval::Hour12 => "12 Hour",
            Interval::Day1 => "Daily",
            Interval::Day5 => "5 Day",
            Interval::Week1 => "Weekly",
        }
    }
}

} // verus!

verus! {

/// A candle exactly one interval after another, with no leap second under
/// way, always follows it, and a candle at the same time as another never
/// does.
pub proof fn lemma_one_interval_later_follows(i: Interval, last: Timestamp, next: Timestamp)
    requires
        last.nanos < 1_000_000_000,
        next.nanos == last.nanos,
        next.secs == last.secs + interval_millis(i) / 1000,
    ensures
        follows(i, last, next),
        !follows(i, last, last),
{
    lemma_nanos_between_plain(last, next);
}

} // verus!

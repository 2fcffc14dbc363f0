//! Points in time in UTC, as the seconds since the Unix epoch and the
//! nanoseconds into that second, the way chrono's `DateTime<Utc>` reports
//! them through `timestamp()` and `timestamp_subsec_nanos()`.
use vstd::prelude::*;

verus! {

pub const NANOS_PER_SECOND: i128 = 1_000_000_000;

pub const SECONDS_PER_DAY: i64 = 86_400;

/// Bound on the seconds of a timestamp, beyond the range of dates that
/// chrono can represent (about 262,000 years either side of the epoch).
pub const MAX_TIMESTAMP_SECS: i64 = 10_000_000_000_000;

/// A point in time in UTC.
#[derive(Debug, Clone, Copy, PartialEq, Eq, Hash, Structural)]
pub struct Timestamp {
    /// Whole seconds since 1970-01-01T00:00:00Z, leap seconds not counted.
    pub secs: i64,
    /// Nanoseconds into that second; one billion or more while a leap second
    /// is under way.
    pub nanos: u32,
}

impl Timestamp {
    /// Within the range of dates chrono represents, with at most one leap
    /// second under way.
    pub open spec fn in_range(self) -> bool {
        &&& -MAX_TIMESTAMP_SECS <= self.secs <= MAX_TIMESTAMP_SECS
        &&& self.nanos < 2 * NANOS_PER_SECOND
    }

    /// Milliseconds since the epoch, leap seconds not counted
    /// (`timestamp_millis`).
    pub open spec fn spec_millis(self) -> int {
        self.secs * 1000 + self.nanos / 1_000_000
    }

    /// The second of the UTC day the timestamp falls in.
    pub open spec fn second_of_day(self) -> int {
        (self.secs as int) % (SECONDS_PER_DAY as int)
    }

    pub fn new(secs: i64, nanos: u32) -> (t: Timestamp)
        ensures
            t.secs == secs,
            t.nanos == nanos,
    {
        Timestamp { secs, nanos }
    }

    /// Milliseconds since the epoch, leap seconds not counted.
    pub fn millis(&self) -> (ms: i64)
        requires
            self.in_range(),
        ensures
            ms == self.spec_millis(),
    {
        self.secs * 1000 + (self.nanos / 1_000_000) as i64
    }

    /// The nanoseconds from `earlier` to `self`, negative when `self` is the
    /// earlier of the two.
    pub fn nanos_since(&self, earlier: &Timestamp) -> (d: i128)
        ensures
            d == nanos_between(*earlier, *self),
    {
        let later_sod = second_of_day(self.secs);
        let earlier_sod = second_of_day(earlier.secs);
        let adjustment: i128 = if later_sod > earlier_sod && earlier.nanos as i128
            >= NANOS_PER_SECOND {
            1
        } else if later_sod < earlier_sod && self.nanos as i128 >= NANOS_PER_SECOND {
            -1
        } else {
            0
        };
        (self.secs as i128 - earlier.secs as i128 + adjustment) * NANOS_PER_SECOND
            + self.nanos as i128 - earlier.nanos as i128
    }
}

/// The second of the UTC day that `secs` seconds after the epoch fall in.
fn second_of_day(secs: i64) -> (s: i64)
    ensures
        s == (secs as int) % (SECONDS_PER_DAY as int),
        0 <= s < SECONDS_PER_DAY,
{
    match secs.checked_rem_euclid(SECONDS_PER_DAY) {
        Some(r) => r,
        None => 0,
    }
}

/// The time from `earlier` to `later` in nanoseconds, as chrono's
/// `signed_duration_since` measures it: the difference of the seconds and
/// of the nanoseconds, where a leap second under way at whichever of the two
/// lies earlier in its UTC day counts as one more second between them.
pub open spec fn nanos_between(earlier: Timestamp, later: Timestamp) -> int {
    let adjustment: int = if later.second_of_day() > earlier.second_of_day() && earlier.nanos
        >= NANOS_PER_SECOND {
        1
    } else if later.second_of_day() < earlier.second_of_day() && later.nanos
        >= NANOS_PER_SECOND {
        -1
    } else {
        0
    };
    (later.secs - earlier.secs + adjustment) * NANOS_PER_SECOND + later.nanos - earlier.nanos
}

/// Between two timestamps with no leap second under way, the time is the
/// plain difference of seconds and nanoseconds; it is zero from a timestamp
/// to itself, and it changes sign when the two are swapped.
pub proof fn lemma_nanos_between_plain(a: Timestamp, b: Timestamp)
    requires
        a.nanos < NANOS_PER_SECOND,
        b.nanos < NANOS_PER_SECOND,
    ensures
        nanos_between(a, b) == (b.secs - a.secs) * NANOS_PER_SECOND + b.nanos - a.nanos,
        nanos_between(a, a) == 0,
        nanos_between(b, a) == -nanos_between(a, b),
{
}

} // verus!

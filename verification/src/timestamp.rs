//! Points in time, as the cache and the journal record them.

use vstd::prelude::*;

verus! {

/// The first second that a [`Timestamp`] can hold: the start of the year 0.
pub const MIN_SECONDS: i64 = -62_167_219_200;

/// The last second that a [`Timestamp`] can hold: the end of the year 9999.
pub const MAX_SECONDS: i64 = 253_402_300_799;

/// Nanoseconds in a second.
pub const NANOS_PER_SECOND: u32 = 1_000_000_000;

/// Seconds in a day.
pub const SECONDS_PER_DAY: i64 = 86_400;

/// A point in time in UTC: whole seconds since 1970-01-01 00:00:00, and the
/// nanoseconds since the last whole second.
///
/// Every value lies between the years 0 and 9999 and has less than a second
/// of nanoseconds.
#[derive(Debug, Clone, Copy)]
pub struct Timestamp {
    secs: i64,
    nanos: u32,
}

/// The text of a point in time in UTC, written after `pattern`. It is a
/// function of the whole seconds and of the pattern alone.
pub uninterp spec fn utc_text(seconds: int, pattern: Seq<char>) -> Seq<char>;

/// The pattern of the form `YYYYMMDD-HHMMSS`.
pub open spec fn compact_pattern() -> Seq<char> {
    "%Y%m%d-%H%M%S"@
}

/// The text of a point in time in the form `YYYYMMDD-HHMMSS`, in UTC.
pub open spec fn compact_utc_text(seconds: int) -> Seq<char> {
    utc_text(seconds, compact_pattern())
}

/// Whether `seconds` and `nanos` can stand in a [`Timestamp`].
pub open spec fn in_range(seconds: int, nanos: int) -> bool {
    MIN_SECONDS <= seconds <= MAX_SECONDS && 0 <= nanos < NANOS_PER_SECOND
}

/// The time that passes from `earlier` to `later` in whole days, fractions
/// cut off towards zero. Both are given in nanoseconds.
pub open spec fn whole_days_between(later: int, earlier: int) -> int {
    let span = later - earlier;
    let day = SECONDS_PER_DAY * NANOS_PER_SECOND;
    if span >= 0 {
        span / day
    } else {
        -((-span) / day)
    }
}

impl Timestamp {
    /// The point in time lies between the years 0 and 9999 and has less
    /// than a second of nanoseconds.
    #[verifier::type_invariant]
    spec fn inv(self) -> bool {
        in_range(self.secs as int, self.nanos as int)
    }

    /// Whole seconds since 1970-01-01 00:00:00 UTC.
    pub closed spec fn seconds(self) -> int {
        self.secs as int
    }

    /// Nanoseconds since the last whole second.
    pub closed spec fn subsec_nanos(self) -> int {
        self.nanos as int
    }

    /// Nanoseconds since 1970-01-01 00:00:00 UTC.
    pub open spec fn total_nanos(self) -> int {
        self.seconds() * NANOS_PER_SECOND + self.subsec_nanos()
    }

    /// The point in time `secs` seconds and `nanos` nanoseconds after
    /// 1970-01-01 00:00:00 UTC, or `None` where they are out of range.
    pub fn new(secs: i64, nanos: u32) -> (out: Option<Timestamp>)
        ensures
            out is Some <==> in_range(secs as int, nanos as int),
            out matches Some(t) ==> t.seconds() == secs && t.subsec_nanos() == nanos,
    {
        if MIN_SECONDS <= secs && secs <= MAX_SECONDS && nanos < NANOS_PER_SECOND {
            Some(Timestamp { secs, nanos })
        } else {
            None
        }
    }

    /// Whole seconds since 1970-01-01 00:00:00 UTC.
    pub fn secs(&self) -> (s: i64)
        ensures
            s == self.seconds(),
            in_range(self.seconds(), self.subsec_nanos()),
    {
        proof {
            use_type_invariant(self);
        }
        self.secs
    }

    /// Nanoseconds since the last whole second.
    pub fn nanos(&self) -> (n: u32)
        ensures
            n == self.subsec_nanos(),
            in_range(self.seconds(), self.subsec_nanos()),
    {
        proof {
            use_type_invariant(self);
        }
        self.nanos
    }

    /// Milliseconds since the last whole second.
    pub fn subsec_millis(&self) -> (ms: u32)
        ensures
            ms == self.subsec_nanos() / 1_000_000,
            ms < 1000,
    {
        proof {
            use_type_invariant(self);
        }
        self.nanos / 1_000_000
    }

    /// The whole days that pass from `earlier` to `self`.
    pub fn days_since(&self, earlier: &Timestamp) -> (days: i64)
        ensures
            days == whole_days_between(self.total_nanos(), earlier.total_nanos()),
    {
        proof {
            use_type_invariant(self);
            use_type_invariant(earlier);
        }
        elapsed_days(self.secs, self.nanos, earlier.secs, earlier.nanos)
    }

    /// The text `YYYYMMDD-HHMMSS` of this point in time.
    pub fn compact_text(&self) -> (out: String)
        ensures
            out@ == compact_utc_text(self.seconds()),
    {
        proof {
            use_type_invariant(self);
        }
        format_utc(self.secs, "%Y%m%d-%H%M%S")
    }
}

/// The whole days between two points in time.
///
/// Wraps chrono's `DateTime::signed_duration_since` and
/// `TimeDelta::num_days`, on points in time made by `DateTime::from_timestamp`:
/// the result is the difference of the two, in days, cut off towards zero.
/// Within the range that is required here `from_timestamp` gives a value and
/// the difference is always in range.
#[verifier::external_body]
fn elapsed_days(later_secs: i64, later_nanos: u32, earlier_secs: i64, earlier_nanos: u32) -> (days:
    i64)
    requires
        in_range(later_secs as int, later_nanos as int),
        in_range(earlier_secs as int, earlier_nanos as int),
    ensures
        days == whole_days_between(
            later_secs * NANOS_PER_SECOND + later_nanos,
            earlier_secs * NANOS_PER_SECOND + earlier_nanos,
        ),
{
    let later = chrono::DateTime::from_timestamp(later_secs, later_nanos).unwrap_or_default();
    let earlier = chrono::DateTime::from_timestamp(earlier_secs, earlier_nanos).unwrap_or_default();
    later.signed_duration_since(earlier).num_days()
}

/// The text of a point in time, written after a pattern.
///
/// Wraps chrono's `DateTime::format`, on a point in time made by
/// `DateTime::from_timestamp`: the text depends on the seconds and on the
/// pattern alone. The one pattern that is let in is the compact one, which
/// chrono knows in each of its parts.
#[verifier::external_body]
fn format_utc(secs: i64, pattern: &str) -> (out: String)
    requires
        MIN_SECONDS <= secs <= MAX_SECONDS,
        pattern@ == compact_pattern(),
    ensures
        out@ == utc_text(secs as int, pattern@),
{
    let at = chrono::DateTime::from_timestamp(secs, 0).unwrap_or_default();
    at.format(pattern).to_string()
}

} // verus!

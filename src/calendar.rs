//! Calendar arithmetic on the proleptic Gregorian calendar, in UTC, and the
//! clock readings the presence worker needs.

use vstd::prelude::*;

verus! {

/// The first year that chrono's `NaiveDate` accepts from its constructors.
pub const MIN_YEAR: i32 = -262143;

/// The last year that chrono's `NaiveDate` accepts from its constructors.
pub const MAX_YEAR: i32 = 262142;

pub open spec fn is_leap_year(y: int) -> bool {
    y % 4 == 0 && (y % 100 != 0 || y % 400 == 0)
}

pub open spec fn days_in_month(y: int, m: int) -> int {
    if m == 2 {
        if is_leap_year(y) { 29 } else { 28 }
    } else if m == 4 || m == 6 || m == 9 || m == 11 {
        30
    } else {
        31
    }
}

/// Leap years in `1..=n`; for `n < 0` the negated count in `n+1..=0`, so that
/// `leap_count(b) - leap_count(a)` counts the leap years in `a+1..=b`.
pub open spec fn leap_count(n: int) -> int {
    n / 4 - n / 100 + n / 400
}

/// Days from 1970-01-01 to January 1st of year `y` (negative before 1970).
pub open spec fn days_before_year(y: int) -> int {
    365 * (y - 1970) + leap_count(y - 1) - leap_count(1969)
}

/// Days from January 1st to the first day of month `m` of year `y`.
pub open spec fn days_before_month(y: int, m: int) -> int {
    let base: int = if m <= 1 {
        0
    } else if m == 2 {
        31
    } else if m == 3 {
        59
    } else if m == 4 {
        90
    } else if m == 5 {
        120
    } else if m == 6 {
        151
    } else if m == 7 {
        181
    } else if m == 8 {
        212
    } else if m == 9 {
        243
    } else if m == 10 {
        273
    } else if m == 11 {
        304
    } else {
        334
    };
    if m > 2 && is_leap_year(y) {
        base + 1
    } else {
        base
    }
}

/// Days from 1970-01-01 to the given calendar day.
pub open spec fn days_since_epoch(y: int, m: int, d: int) -> int {
    days_before_year(y) + days_before_month(y, m) + d - 1
}

/// Seconds since 1970-01-01T00:00:00Z of the earliest instant that chrono can
/// hold: its dates keep the year in the bits above the lowest 13 of an `i32`.
pub open spec fn earliest_instant() -> int {
    days_since_epoch(-262144, 1, 1) * 86400
}

/// A calendar date and a time of day, in UTC.
#[derive(Clone, Copy, Debug, PartialEq, Eq, Structural)]
pub struct UtcDateTime {
    pub year: i32,
    pub month: u32,
    pub day: u32,
    pub hour: u32,
    pub minute: u32,
    pub second: u32,
}

impl UtcDateTime {
    /// The fields name an existing day of a year that chrono can represent,
    /// and a time of day without a leap second.
    pub open spec fn valid(self) -> bool {
        &&& MIN_YEAR <= self.year <= MAX_YEAR
        &&& 1 <= self.month <= 12
        &&& 1 <= self.day <= days_in_month(self.year as int, self.month as int)
        &&& self.hour < 24
        &&& self.minute < 60
        &&& self.second < 60
    }

    /// Seconds since 1970-01-01T00:00:00Z, not counting leap seconds.
    pub open spec fn epoch_seconds(self) -> int {
        days_since_epoch(self.year as int, self.month as int, self.day as int) * 86400
            + self.hour * 3600 + self.minute * 60 + self.second
    }

    pub fn is_valid(&self) -> (r: bool)
        ensures
            r == self.valid(),
    {
        if self.year < MIN_YEAR || self.year > MAX_YEAR || self.month < 1 || self.month > 12
            || self.day < 1 || self.hour >= 24 || self.minute >= 60 || self.second >= 60 {
            return false;
        }
        // Shifting by a multiple of 400 years keeps the leap-year pattern and
        // makes the year positive.
        let shifted: u64 = (self.year as i64 + 400000) as u64;
        let leap: bool = shifted % 4 == 0 && (shifted % 100 != 0 || shifted % 400 == 0);
        assert(leap == is_leap_year(self.year as int)) by {
            let y = self.year as int;
            assert(shifted as int == y + 1000 * 400);
            assert((y + 1000 * 400) % 4 == y % 4);
            assert((y + 1000 * 400) % 100 == y % 100);
            assert((y + 1000 * 400) % 400 == y % 400);
        }
        let last: u32 = if self.month == 2 {
            if leap { 29 } else { 28 }
        } else if self.month == 4 || self.month == 6 || self.month == 9 || self.month == 11 {
            30
        } else {
            31
        };
        self.day <= last
    }
}

/// One reading of the clock: the instant as Unix seconds, and the local
/// wall-clock time of day at that instant. The caller reads it, since the
/// time-zone lookup lies outside what this crate can call without risk of a
/// panic.
#[derive(Clone, Copy, Debug, PartialEq, Eq, Structural)]
pub struct LocalNow {
    pub utc: i64,
    pub hour: u32,
    pub minute: u32,
    pub second: u32,
}

impl LocalNow {
    pub open spec fn wf(self) -> bool {
        &&& earliest_instant() <= self.utc
        &&& self.hour < 24
        &&& self.minute < 60
        &&& self.second < 60
    }

    pub fn is_wf(&self) -> (r: bool)
        ensures
            r == self.wf(),
    {
        proof {
            lemma_earliest_instant_bound();
        }
        self.utc >= EARLIEST_INSTANT && self.hour < 24 && self.minute < 60 && self.second < 60
    }

    /// Seconds elapsed on the local clock since local midnight.
    pub open spec fn seconds_of_day(self) -> int {
        self.hour * 3600 + self.minute * 60 + self.second
    }
}

/// The value of `earliest_instant`.
pub const EARLIEST_INSTANT: i64 = -8334632851200;

pub proof fn lemma_earliest_instant_bound()
    ensures
        earliest_instant() > i64::MIN + 86400,
        earliest_instant() == EARLIEST_INSTANT,
{
    assert(-262145int / 4 == -65537);
    assert(-262145int / 100 == -2622);
    assert(-262145int / 400 == -656);
    assert(leap_count(1969) == 477);
    assert(days_since_epoch(-262144, 1, 1) == -96465658);
}

/// Relies on chrono's `TimeZone::with_ymd_and_hms` for `Utc` and on
/// `DateTime::timestamp`: a valid date and time is a single instant, whose
/// timestamp counts the non-leap seconds since 1970-01-01T00:00:00Z.
#[verifier::external_body]
pub(crate) fn utc_timestamp(t: &UtcDateTime) -> (r: Option<i64>)
    requires
        t.valid(),
    ensures
        r is Some && r.unwrap() == t.epoch_seconds(),
{
    chrono::TimeZone::with_ymd_and_hms(
        &chrono::Utc,
        t.year,
        t.month,
        t.day,
        t.hour,
        t.minute,
        t.second,
    ).single().map(|d| d.timestamp())
}

/// Relies on `SystemTime::elapsed` on `UNIX_EPOCH`, which reads the system
/// clock: the whole seconds since the Unix epoch, or `None` where the clock
/// reads before it (or too far after it for an `i64`).
#[verifier::external_body]
pub(crate) fn utc_now() -> (r: Option<i64>)
    ensures
        r is Some ==> r.unwrap() >= 0,
{
    let since = std::time::UNIX_EPOCH.elapsed().ok()?;
    i64::try_from(since.as_secs()).ok()
}

} // verus!

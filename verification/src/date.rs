//! Conversion between unix-second timestamps and civil (calendar) date parts.
//!
//! The document format stores a timestamp as a day-count serial; the writer
//! builds that serial from the civil parts computed here, and the reader
//! turns the serial back into unix seconds.  The supported window is the
//! format's own: 1900-01-01 through 9999-12-31, whole seconds.  Everything
//! in this module is proper Gregorian arithmetic; the serial encoding's
//! well-known 1900 leap-year quirk lives inside the outside crates, which
//! write and read it the same way, so round trips stay exact.

use vstd::prelude::*;

verus! {

/// First supported second: 1900-01-01 00:00:00, the earliest date the
/// document format can hold.
pub const MIN_LOG_STAMP: i64 = -2208988800;

/// Last supported second: 9999-12-31 23:59:59, the latest date the
/// document format can hold.  Sub-second precision is not representable
/// at all: the codec works in whole seconds.
pub const MAX_LOG_STAMP: i64 = 253402300799;

/// Seconds from 1900-01-01 to 1970-01-01 (the unix epoch).
pub const EPOCH_OFFSET_SECONDS: i64 = 2208988800;

pub open spec fn is_leap_year(y: int) -> bool {
    y % 4 == 0 && (y % 100 != 0 || y % 400 == 0)
}

pub open spec fn days_in_year(y: int) -> int {
    if is_leap_year(y) {
        366
    } else {
        365
    }
}

pub open spec fn days_in_month(y: int, m: int) -> int {
    if m == 2 {
        if is_leap_year(y) {
            29
        } else {
            28
        }
    } else if m == 4 || m == 6 || m == 9 || m == 11 {
        30
    } else {
        31
    }
}

/// Days from 1900-01-01 to the first day of year `y`.
pub open spec fn days_to_year(y: int) -> int
    decreases y - 1900,
{
    if y <= 1900 {
        0
    } else {
        days_to_year(y - 1) + days_in_year(y - 1)
    }
}

/// Days from `y`-01-01 to the first day of month `m` in year `y`.
pub open spec fn days_to_month(y: int, m: int) -> int
    decreases m,
{
    if m <= 1 {
        0
    } else {
        days_to_month(y, m - 1) + days_in_month(y, m - 1)
    }
}

pub open spec fn valid_ymd(y: int, m: int, d: int) -> bool {
    1900 <= y && 1 <= m <= 12 && 1 <= d <= days_in_month(y, m)
}

/// Days from 1900-01-01 to the civil date `y`-`m`-`d`.
pub open spec fn days_from_civil(y: int, m: int, d: int) -> int {
    days_to_year(y) + days_to_month(y, m) + (d - 1)
}

/// Civil date and time parts, second precision.
#[derive(Clone, Copy, PartialEq, Eq, Structural, Debug)]
pub struct Civil {
    pub year: u16,
    pub month: u8,
    pub day: u8,
    pub hour: u8,
    pub minute: u8,
    pub second: u8,
}

impl Civil {
    pub open spec fn valid(self) -> bool {
        valid_ymd(self.year as int, self.month as int, self.day as int)
            && self.year <= 9999
            && self.hour < 24
            && self.minute < 60
            && self.second < 60
    }

    /// The unix timestamp these parts denote.
    pub open spec fn stamp(self) -> int {
        days_from_civil(self.year as int, self.month as int, self.day as int) * 86400
            + self.hour as int * 3600 + self.minute as int * 60 + self.second as int
            - EPOCH_OFFSET_SECONDS
    }
}

/// Leap years in [1900, y), as a closed form over integer division.
pub open spec fn leaps_before(y: int) -> int {
    ((y - 1) / 4 - (y - 1) / 100 + (y - 1) / 400) - 460
}

proof fn lemma_div_step(a: int, d: int)
    requires
        d > 0,
    ensures
        a / d - (a - 1) / d == if a % d == 0 {
            1int
        } else {
            0int
        },
{
    assert(a / d - (a - 1) / d == if a % d == 0 {
        1int
    } else {
        0int
    }) by (nonlinear_arith)
        requires
            d > 0,
    ;
}

/// The recursive day count agrees with the closed form `leaps_before`.
proof fn lemma_days_to_year_closed(y: int)
    requires
        y >= 1900,
    ensures
        days_to_year(y) == 365 * (y - 1900) + leaps_before(y),
    decreases y - 1900,
{
    if y == 1900 {
        assert(leaps_before(1900) == (1899int / 4 - 1899int / 100 + 1899int / 400) - 460);
        assert(leaps_before(1900) == 0);
    } else {
        lemma_days_to_year_closed(y - 1);
        lemma_div_step(y - 1, 4);
        lemma_div_step(y - 1, 100);
        lemma_div_step(y - 1, 400);
    }
}

proof fn lemma_days_to_year_mono(a: int, b: int)
    requires
        1900 <= a <= b,
    ensures
        days_to_year(a) <= days_to_year(b),
    decreases b - a,
{
    if a < b {
        lemma_days_to_year_mono(a, b - 1);
    }
}

/// Day count up to year 10000, which bounds every supported timestamp.
proof fn lemma_days_to_year_10000()
    ensures
        days_to_year(10000) == 2958464,
{
    lemma_days_to_year_closed(10000);
    assert(leaps_before(10000) == (9999int / 4 - 9999int / 100 + 9999int / 400) - 460);
    assert(leaps_before(10000) == 1964);
}

/// A whole year's months sum to the year's day count.
proof fn lemma_months_sum(y: int)
    ensures
        days_to_month(y, 13) == days_in_year(y),
{
    reveal_with_fuel(days_to_month, 14);
    assert(days_to_month(y, 13) == days_to_month(y, 1) + days_in_month(y, 1) + days_in_month(y, 2)
        + days_in_month(y, 3) + days_in_month(y, 4) + days_in_month(y, 5) + days_in_month(y, 6)
        + days_in_month(y, 7) + days_in_month(y, 8) + days_in_month(y, 9) + days_in_month(y, 10)
        + days_in_month(y, 11) + days_in_month(y, 12));
}

exec fn days_in_year_x(y: u16) -> (r: u64)
    ensures
        r == days_in_year(y as int),
{
    if (y % 4 == 0 && y % 100 != 0) || y % 400 == 0 {
        366
    } else {
        365
    }
}

exec fn days_in_month_x(y: u16, m: u8) -> (r: u64)
    requires
        1 <= m <= 12,
    ensures
        r == days_in_month(y as int, m as int),
{
    if m == 2 {
        if (y % 4 == 0 && y % 100 != 0) || y % 400 == 0 {
            29
        } else {
            28
        }
    } else if m == 4 || m == 6 || m == 9 || m == 11 {
        30
    } else {
        31
    }
}

/// Splits a unix timestamp into its civil date and time parts.
pub fn unix_to_civil(ts: i64) -> (c: Civil)
    requires
        MIN_LOG_STAMP <= ts <= MAX_LOG_STAMP,
    ensures
        c.valid(),
        c.stamp() == ts,
{
    let total: u64 = (ts - MIN_LOG_STAMP) as u64;
    let mut days: u64 = total / 86400;
    let secs: u64 = total % 86400;
    assert(days * 86400 + secs == total);
    assert(days <= 2958463) by (nonlinear_arith)
        requires
            days == total / 86400 && total <= 255611289599,
    ;

    let mut y: u16 = 1900;
    loop
        invariant
            1900 <= y,
            total / 86400 <= 2958463,
            days_to_year(y as int) + days == total / 86400,
        ensures
            1900 <= y <= 9999,
            days < days_in_year(y as int),
            days_to_year(y as int) + days == total / 86400,
        decreases days,
    {
        proof {
            // days_to_year(y) <= total days < days_to_year(10000) keeps y in range.
            lemma_days_to_year_10000();
            if y as int >= 10000 {
                lemma_days_to_year_mono(10000, y as int);
            }
            assert(y < 10000);
        }
        let n = days_in_year_x(y);
        if days < n {
            break;
        }
        days = days - n;
        y = y + 1;
    }

    let mut m: u8 = 1;
    loop
        invariant
            1 <= m <= 12,
            days_to_year(y as int) + days_to_month(y as int, m as int) + days == total / 86400,
            days_to_month(y as int, m as int) + days < days_in_year(y as int),
        ensures
            1 <= m <= 12,
            days < days_in_month(y as int, m as int),
            days_to_year(y as int) + days_to_month(y as int, m as int) + days == total / 86400,
        decreases 12 - m,
    {
        let n = days_in_month_x(y, m);
        if days < n {
            break;
        }
        proof {
            if m == 12 {
                lemma_months_sum(y as int);
                assert(days_to_month(y as int, 13int) == days_to_month(y as int, 12int)
                    + days_in_month(y as int, 12int));
                assert(false);
            }
        }
        days = days - n;
        m = m + 1;
    }

    let d: u8 = (days + 1) as u8;
    let hour: u8 = (secs / 3600) as u8;
    let rem: u64 = secs % 3600;
    let minute: u8 = (rem / 60) as u8;
    let second: u8 = (rem % 60) as u8;
    proof {
        assert(secs / 3600 < 24 && secs % 3600 < 3600) by (nonlinear_arith)
            requires
                secs < 86400,
        ;
        assert(rem / 60 < 60 && rem % 60 < 60) by (nonlinear_arith)
            requires
                rem < 3600,
        ;
        assert(hour as int * 3600 + minute as int * 60 + second as int == secs) by (nonlinear_arith)
            requires
                hour as int == secs / 3600 && rem == secs % 3600 && minute as int == rem / 60
                    && second as int == rem % 60 && secs < 86400,
        ;
        assert((total / 86400) * 86400 + secs == total);
    }
    Civil { year: y, month: m, day: d, hour, minute, second }
}

/// Bound used to show civil parts convert back without overflow.
proof fn lemma_days_from_civil_bound(y: int, m: int, d: int)
    requires
        valid_ymd(y, m, d),
        y <= 9999,
    ensures
        days_from_civil(y, m, d) <= 2958463,
        days_from_civil(y, m, d) >= 0,
{
    lemma_months_in_range(y, m);
    lemma_months_sum(y);
    lemma_days_to_year_mono(1900, y);
    lemma_days_to_year_closed(y + 1);
    lemma_days_to_year_10000();
    lemma_days_to_year_mono(y + 1, 10000);
    assert(days_to_year(y + 1) == days_to_year(y) + days_in_year(y));
}

/// A month start plus its length stays within the year.
proof fn lemma_months_in_range(y: int, m: int)
    requires
        1 <= m <= 12,
    ensures
        days_to_month(y, m) + days_in_month(y, m) <= days_to_month(y, 13),
        days_to_month(y, m) >= 0,
    decreases 13 - m,
{
    if m < 12 {
        lemma_months_in_range(y, m + 1);
    }
    assert(days_to_month(y, m) >= 0) by {
        lemma_months_nonneg(y, m);
    }
}

proof fn lemma_months_nonneg(y: int, m: int)
    ensures
        days_to_month(y, m) >= 0,
    decreases m,
{
    if m > 1 {
        lemma_months_nonneg(y, m - 1);
    }
}

/// Combines civil date and time parts into the unix timestamp they denote.
pub fn civil_to_unix(c: Civil) -> (ts: i64)
    requires
        c.valid(),
    ensures
        ts == c.stamp(),
        MIN_LOG_STAMP <= ts <= MAX_LOG_STAMP,
{
    let mut acc: u64 = 0;
    let mut y: u16 = 1900;
    while y < c.year
        invariant
            1900 <= y <= c.year,
            c.valid(),
            acc == days_to_year(y as int),
            acc <= 2958464,
        decreases c.year as int - y as int,
    {
        proof {
            lemma_days_to_year_10000();
            lemma_days_to_year_mono(y as int + 1, 10000);
        }
        acc = acc + days_in_year_x(y);
        y = y + 1;
    }
    let mut m: u8 = 1;
    while m < c.month
        invariant
            1 <= m <= c.month,
            c.valid(),
            y == c.year,
            acc == days_to_year(c.year as int) + days_to_month(c.year as int, m as int),
            days_to_year(c.year as int) <= 2958464,
            days_to_month(c.year as int, m as int) <= 366,
        decreases c.month as int - m as int,
    {
        proof {
            lemma_months_in_range(c.year as int, m as int);
            lemma_months_sum(c.year as int);
        }
        acc = acc + days_in_month_x(c.year, m);
        m = m + 1;
    }
    proof {
        lemma_days_from_civil_bound(c.year as int, c.month as int, c.day as int);
    }
    let days: u64 = acc + (c.day - 1) as u64;
    let raw: u64 = days * 86400 + (c.hour as u64) * 3600 + (c.minute as u64) * 60 + (
    c.second as u64);
    proof {
        assert(days * 86400 <= 2958463 * 86400) by (nonlinear_arith)
            requires
                0 <= days <= 2958463,
        ;
    }
    (raw as i64) - EPOCH_OFFSET_SECONDS
}

} // verus!

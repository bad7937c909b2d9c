//! Classification of a time of day into a named school period.

use vstd::prelude::*;
use vstd::string::StringExecFns;

verus! {

/// A named stretch of the day: `[start, end)` in seconds since midnight,
/// optionally wrapping past midnight.
pub struct TimePeriod {
    pub start: u32,
    pub end: u32,
    pub wraps_midnight: bool,
    pub name: &'static str,
}

impl TimePeriod {
    /// Whether the time of day (seconds since midnight) falls in this
    /// period.
    pub open spec fn contains_spec(self, time: int) -> bool {
        if self.wraps_midnight {
            time >= self.start || time < self.end
        } else {
            time >= self.start && time < self.end
        }
    }

    pub fn new(start: u32, end: u32, wraps_midnight: bool, name: &'static str) -> (p: Self)
        ensures
            p.start == start,
            p.end == end,
            p.wraps_midnight == wraps_midnight,
            p.name == name,
    {
        TimePeriod { start, end, wraps_midnight, name }
    }

    /// Whether a time of day falls in this period.
    pub fn contains(&self, time: u32) -> (r: bool)
        ensures
            r == self.contains_spec(time as int),
    {
        if self.wraps_midnight {
            time >= self.start || time < self.end
        } else {
            time >= self.start && time < self.end
        }
    }
}

/// Seconds since midnight of the wall-clock time `h`:`m`.
pub fn hms(h: u32, m: u32) -> (r: u32)
    requires
        h < 24,
        m < 60,
    ensures
        r == h * 3600 + m * 60,
        r < 86400,
{
    h * 3600 + m * 60
}

/// Some period of the list contains the time of day.
pub open spec fn some_period_contains(ps: Seq<TimePeriod>, time: int) -> bool {
    exists|i: int| 0 <= i < ps.len() && (#[trigger] ps[i]).contains_spec(time)
}

/// The fixed school-day periods, in order.  Together they cover the whole
/// day, so classification never fails on this list.
pub fn periods() -> (r: Vec<TimePeriod>)
    ensures
        r@.len() == 9,
        forall|t: int| 0 <= t < 86400 ==> some_period_contains(r@, t),
{
    let mut v: Vec<TimePeriod> = Vec::new();
    v.push(TimePeriod::new(hms(5, 0), hms(8, 45), false, "Before School"));
    v.push(TimePeriod::new(hms(8, 45), hms(8, 55), false, "Form"));
    v.push(TimePeriod::new(hms(8, 55), hms(10, 5), false, "Period 1"));
    v.push(TimePeriod::new(hms(10, 5), hms(11, 15), false, "Period 2"));
    v.push(TimePeriod::new(hms(11, 15), hms(11, 55), false, "Morning Tea"));
    v.push(TimePeriod::new(hms(11, 55), hms(13, 5), false, "Period 3"));
    v.push(TimePeriod::new(hms(13, 5), hms(13, 45), false, "Second Lunch"));
    v.push(TimePeriod::new(hms(13, 45), hms(14, 55), false, "Period 4"));
    v.push(TimePeriod::new(hms(14, 55), hms(5, 0), true, "After Hours"));
    proof {
        assert forall|t: int| 0 <= t < 86400 implies some_period_contains(v@, t) by {
            if t < 5 * 3600 {
                assert(v@[8].contains_spec(t));
            } else if t < 8 * 3600 + 45 * 60 {
                assert(v@[0].contains_spec(t));
            } else if t < 8 * 3600 + 55 * 60 {
                assert(v@[1].contains_spec(t));
            } else if t < 10 * 3600 + 5 * 60 {
                assert(v@[2].contains_spec(t));
            } else if t < 11 * 3600 + 15 * 60 {
                assert(v@[3].contains_spec(t));
            } else if t < 11 * 3600 + 55 * 60 {
                assert(v@[4].contains_spec(t));
            } else if t < 13 * 3600 + 5 * 60 {
                assert(v@[5].contains_spec(t));
            } else if t < 13 * 3600 + 45 * 60 {
                assert(v@[6].contains_spec(t));
            } else if t < 14 * 3600 + 55 * 60 {
                assert(v@[7].contains_spec(t));
            } else {
                assert(v@[8].contains_spec(t));
            }
        }
    }
    v
}

/// The label of the first period containing the time of day (seconds
/// since midnight), or an error when no period does.  Succeeds if and
/// only if some period of the list contains the time.
pub fn get_current_period(time: u32, periods: &Vec<TimePeriod>) -> (r: Result<String, String>)
    ensures
        (r is Ok) == some_period_contains(periods@, time as int),
        r matches Ok(name) ==> exists|i: int|
            0 <= i < periods@.len() && (#[trigger] periods@[i]).contains_spec(time as int)
                && name@ == periods@[i].name@ && (forall|j: int|
                0 <= j < i ==> !(#[trigger] periods@[j]).contains_spec(time as int)),
{
    let mut i: usize = 0;
    while i < periods.len()
        invariant
            i <= periods@.len(),
            forall|j: int| 0 <= j < i ==> !(#[trigger] periods@[j]).contains_spec(time as int),
        decreases periods@.len() - i,
    {
        if periods[i].contains(time) {
            return Ok(String::from_str(periods[i].name));
        }
        i = i + 1;
    }
    Err(String::from_str("the time of day falls outside every defined period"))
}

} // verus!

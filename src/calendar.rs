//! Local timestamps held as plain values, the calendar facts the resolver
//! reasons with, and the calls into chrono and chronoutil that do the
//! time-zone and calendar work.
use chrono::{Datelike, FixedOffset, Local, MappedLocalTime, NaiveDate, TimeDelta, TimeZone, Timelike};
use vstd::arithmetic::div_mod::lemma_mod_multiples_vanish;
use vstd::prelude::*;
use vstd::string::*;

use crate::ParseDateError;

verus! {

/// Smallest year that chrono's dates can hold.
pub const MIN_YEAR: i32 = -262143;

/// Largest year that chrono's dates can hold.
pub const MAX_YEAR: i32 = 262142;

pub open spec fn is_leap_year(y: int) -> bool {
    y % 4 == 0 && (y % 100 != 0 || y % 400 == 0)
}

pub open spec fn days_in_month(y: int, m: int) -> int {
    if m == 2 {
        if is_leap_year(y) { 29 } else { 28 }
    } else if m == 4 || m == 6 || m == 9 || m == 11 {
        30
    } else {
        31
    }
}

/// A day of the proleptic Gregorian calendar within chrono's range of years.
pub open spec fn valid_date(y: int, m: int, d: int) -> bool {
    MIN_YEAR <= y <= MAX_YEAR && 1 <= m <= 12 && 1 <= d <= days_in_month(y, m)
}

/// Number of days from 1970-01-01 to the given day of the proleptic
/// Gregorian calendar (negative before it).
pub open spec fn days_from_civil(y: int, m: int, d: int) -> int {
    let y = if m <= 2 { y - 1 } else { y };
    let era = y / 400;
    let yoe = y - era * 400;
    let mp = if m > 2 { m - 3 } else { m + 9 };
    let doy = (153 * mp + 2) / 5 + d - 1;
    let doe = yoe * 365 + yoe / 4 - yoe / 100 + doy;
    era * 146097 + doe - 719468
}

/// Day of the week of a day number: 0 is Sunday, 6 is Saturday
/// (1970-01-01 was a Thursday).
pub open spec fn weekday_of_day(days: int) -> int {
    (days + 4) % 7
}

/// A point in time as the local zone shows it: the civil date and time of
/// day, and the zone's offset from UTC (local minus UTC, in seconds) at
/// that instant.
#[derive(Clone, Copy, Debug, PartialEq, Eq, Structural)]
pub struct Timestamp {
    pub year: i32,
    pub month: u32,
    pub day: u32,
    pub hour: u32,
    pub minute: u32,
    pub second: u32,
    pub nanosecond: u32,
    pub offset: i32,
}

/// How the local zone reads a civil date and time: it may not exist
/// (a gap), exist once, or exist twice (a fold).
#[derive(Clone, Copy, Debug, PartialEq, Eq, Structural)]
pub enum LocalResolution {
    Nonexistent,
    Unique(Timestamp),
    Ambiguous(Timestamp, Timestamp),
}

impl Timestamp {
    pub open spec fn wf(&self) -> bool {
        &&& valid_date(self.year as int, self.month as int, self.day as int)
        &&& self.hour < 24
        &&& self.minute < 60
        &&& self.second < 60
        &&& self.nanosecond < 1_000_000_000
        &&& -86400 < self.offset < 86400
    }

    pub open spec fn day_number(&self) -> int {
        days_from_civil(self.year as int, self.month as int, self.day as int)
    }

    /// Seconds since midnight, local time.
    pub open spec fn seconds_of_day(&self) -> int {
        self.hour * 3600 + self.minute * 60 + self.second
    }

    /// Seconds from 1970-01-01T00:00:00 to this civil date and time.
    pub open spec fn local_seconds(&self) -> int {
        self.day_number() * 86400 + self.seconds_of_day()
    }

    /// Whole seconds since the Unix epoch (UTC).
    pub open spec fn instant(&self) -> int {
        self.local_seconds() - self.offset
    }

    /// 0 is Sunday, 6 is Saturday.
    pub open spec fn weekday_index(&self) -> int {
        weekday_of_day(self.day_number())
    }

    /// Same civil date and time of day; the offset may differ.
    pub open spec fn same_civil(&self, other: Timestamp) -> bool {
        &&& self.year == other.year
        &&& self.month == other.month
        &&& self.day == other.day
        &&& self.hour == other.hour
        &&& self.minute == other.minute
        &&& self.second == other.second
        &&& self.nanosecond == other.nanosecond
    }

    /// `later` is this instant moved by exactly `secs` seconds.
    pub open spec fn shifted_to(&self, later: Timestamp, secs: int) -> bool {
        &&& later.wf()
        &&& later.instant() == self.instant() + secs
        &&& later.nanosecond == self.nanosecond
    }
}

/// Whether `y` is a leap year of the Gregorian calendar.
pub fn leap_year(y: i32) -> (r: bool)
    requires
        MIN_YEAR <= y <= MAX_YEAR,
    ensures
        r == is_leap_year(y as int),
{
    // Shifted by a multiple of 400 years, the year is positive and its
    // remainders are those of the calendar.
    let p = y as i64 + 400000;
    assert(p % 4 == (y as int) % 4 && p % 100 == (y as int) % 100 && p % 400 == (y as int) % 400)
        by {
        lemma_mod_multiples_vanish(1000, y as int, 400);
        lemma_mod_multiples_vanish(4000, y as int, 100);
        lemma_mod_multiples_vanish(100000, y as int, 4);
    }
    p % 4 == 0 && (p % 100 != 0 || p % 400 == 0)
}

/// Number of days in month `m` of year `y`.
pub fn month_length(y: i32, m: u32) -> (r: u32)
    requires
        MIN_YEAR <= y <= MAX_YEAR,
    ensures
        r == days_in_month(y as int, m as int),
{
    if m == 2 {
        if leap_year(y) {
            29
        } else {
            28
        }
    } else if m == 4 || m == 6 || m == 9 || m == 11 {
        30
    } else {
        31
    }
}

/// Relies on chrono's `Local::now`: the current time in the local zone.
#[verifier::external_body]
pub(crate) fn local_now() -> (r: Timestamp)
    ensures
        r.wf(),
{
    let dt = Local::now();
    let n = dt.naive_local();
    Timestamp {
        year: n.year(),
        month: n.month(),
        day: n.day(),
        hour: n.hour(),
        minute: n.minute(),
        second: n.second(),
        nanosecond: n.nanosecond(),
        offset: dt.offset().local_minus_utc(),
    }
}

/// Relies on chrono's `TimeZone::offset_from_local_datetime` for `Local`:
/// the offsets that the local zone gives the civil date and time of `t`
/// (its own offset is not read). Components that make no valid date and
/// time give `Nonexistent`.
#[verifier::external_body]
pub(crate) fn resolve_local(t: &Timestamp) -> (r: LocalResolution)
    requires
        t.nanosecond < 1_000_000_000,
    ensures
        !(valid_date(t.year as int, t.month as int, t.day as int) && t.hour < 24 && t.minute < 60
            && t.second < 60) ==> r == LocalResolution::Nonexistent,
        r matches LocalResolution::Unique(u) ==> u.wf() && u.same_civil(*t),
        r matches LocalResolution::Ambiguous(a, b) ==> a.wf() && a.same_civil(*t) && b.wf()
            && b.same_civil(*t),
{
    let offsets = match NaiveDate::from_ymd_opt(t.year, t.month, t.day) {
        Some(d) => match d.and_hms_nano_opt(t.hour, t.minute, t.second, t.nanosecond) {
            Some(n) => Local.offset_from_local_datetime(&n),
            None => MappedLocalTime::None,
        },
        None => MappedLocalTime::None,
    };
    match offsets {
        MappedLocalTime::Single(o) => LocalResolution::Unique(Timestamp { offset: o.local_minus_utc(), ..*t }),
        MappedLocalTime::Ambiguous(a, b) => LocalResolution::Ambiguous(Timestamp { offset: a.local_minus_utc(), ..*t }, Timestamp { offset: b.local_minus_utc(), ..*t }),
        MappedLocalTime::None => LocalResolution::Nonexistent,
    }
}

/// Instants that lie more than a year inside the range of chrono's dates.
pub open spec fn within_chrono_range(instant: int) -> bool {
    days_from_civil(MIN_YEAR + 1, 1, 1) * 86400 <= instant <= days_from_civil(MAX_YEAR - 1, 12, 31)
        * 86400
}

/// Relies on chrono's `DateTime::checked_add_signed` for `DateTime<Local>`:
/// the instant moved by `secs` seconds, read in the local zone; `None` only
/// when an instant leaves chrono's range.
#[verifier::external_body]
pub(crate) fn add_seconds(t: &Timestamp, secs: i64) -> (r: Option<Timestamp>)
    requires
        t.wf(),
    ensures
        r matches Some(u) ==> t.shifted_to(u, secs as int),
        within_chrono_range(t.instant()) && within_chrono_range(t.instant() + secs) ==> r is Some,
{
    let naive = NaiveDate::from_ymd_opt(t.year, t.month, t.day)?
        .and_hms_nano_opt(t.hour, t.minute, t.second, t.nanosecond)?;
    let utc = naive.checked_sub_offset(FixedOffset::east_opt(t.offset)?)?;
    let moved = Local.from_utc_datetime(&utc).checked_add_signed(TimeDelta::try_seconds(secs)?)?;
    let n = moved.naive_utc().checked_add_offset(*moved.offset())?;
    Some(Timestamp {
        year: n.year(),
        month: n.month(),
        day: n.day(),
        hour: n.hour(),
        minute: n.minute(),
        second: n.second(),
        nanosecond: n.nanosecond(),
        offset: moved.offset().local_minus_utc(),
    })
}

/// Relies on chrono's `Datelike::weekday` for `NaiveDate`, counted from
/// Sunday by `Weekday::num_days_from_sunday`.
#[verifier::external_body]
pub(crate) fn weekday_number(t: &Timestamp) -> (r: u32)
    requires
        valid_date(t.year as int, t.month as int, t.day as int),
    ensures
        r as int == t.weekday_index(),
{
    NaiveDate::from_ymd_opt(t.year, t.month, t.day).unwrap().weekday().num_days_from_sunday()
}

/// Relies on chrono's `Datelike::with_year` for `NaiveDate`: the same month
/// and day in another year, when that day exists there.
#[verifier::external_body]
pub(crate) fn date_with_year(t: &Timestamp, year: i32) -> (r: Option<Timestamp>)
    requires
        valid_date(t.year as int, t.month as int, t.day as int),
    ensures
        r == (if valid_date(year as int, t.month as int, t.day as int) {
            Some(Timestamp { year, ..*t })
        } else {
            None
        }),
{
    match NaiveDate::from_ymd_opt(t.year, t.month, t.day).unwrap().with_year(year) {
        Some(d) => Some(Timestamp { year: d.year(), month: d.month(), day: d.day(), ..*t }),
        None => None,
    }
}

/// Year reached by moving `n` months on from month `m` of year `y`.
pub open spec fn shifted_year(y: int, m: int, n: int) -> int {
    (y * 12 + (m - 1) + n) / 12
}

/// Month (1 to 12) reached by moving `n` months on from month `m`.
pub open spec fn shifted_month(y: int, m: int, n: int) -> int {
    (y * 12 + (m - 1) + n) % 12 + 1
}

impl Timestamp {
    /// `u` holds the date `n` months after this one, the day of the month
    /// kept or, past the end of the target month, its last day; the time of
    /// day and the offset unchanged.
    pub open spec fn months_later(&self, u: Timestamp, n: int) -> bool {
        let y = shifted_year(self.year as int, self.month as int, n);
        let m = shifted_month(self.year as int, self.month as int, n);
        &&& u.year == y
        &&& u.month == m
        &&& u.day == (if self.day <= days_in_month(y, m) { self.day as int } else { days_in_month(y, m) })
        &&& u.hour == self.hour
        &&& u.minute == self.minute
        &&& u.second == self.second
        &&& u.nanosecond == self.nanosecond
        &&& u.offset == self.offset
    }
}

/// Relies on chronoutil's `delta::shift_months_opt` for `NaiveDate`: the
/// date moved by `months` months (back, when negative), its day kept or, past the end of the target
/// month, moved back to that month's last day; `None` only when the target
/// year leaves chrono's range.
#[verifier::external_body]
pub(crate) fn date_shift_months(t: &Timestamp, months: i32) -> (r: Option<Timestamp>)
    requires
        valid_date(t.year as int, t.month as int, t.day as int),
        months <= i32::MAX - 12,
    ensures
        r matches Some(u) ==> t.months_later(u, months as int),
        MIN_YEAR <= shifted_year(t.year as int, t.month as int, months as int) <= MAX_YEAR
            ==> r is Some,
{
    let date = NaiveDate::from_ymd_opt(t.year, t.month, t.day).unwrap();
    match chronoutil::delta::shift_months_opt(date, months) {
        Some(d) => Some(Timestamp { year: d.year(), month: d.month(), day: d.day(), ..*t }),
        None => None,
    }
}

/// `r` is an error that carries the message `m`.
pub open spec fn fails_with<T>(r: Result<T, ParseDateError>, m: Seq<char>) -> bool {
    r matches Err(ParseDateError::ParseError(s)) && s@ == m
}

pub fn error_of<T>(m: &str) -> (r: Result<T, ParseDateError>)
    ensures
        fails_with(r, m@),
{
    Err(ParseDateError::ParseError(String::from_str(m)))
}

/// The result of a time substitution, from how the local zone read it.
pub fn resolution_result(res: LocalResolution) -> (r: Result<Timestamp, ParseDateError>)
    ensures
        res matches LocalResolution::Unique(u) ==> r == Ok::<Timestamp, ParseDateError>(u),
        res is Nonexistent ==> fails_with(r, "Invalid date or time components"@),
        res is Ambiguous ==> fails_with(r, "Ambiguous date and time"@),
{
    match res {
        LocalResolution::Unique(u) => Ok(u),
        LocalResolution::Nonexistent => error_of("Invalid date or time components"),
        LocalResolution::Ambiguous(_, _) => error_of("Ambiguous date and time"),
    }
}

impl Timestamp {
    /// The local timestamp with the given civil date and time (nanosecond 0),
    /// when the local zone reads it as exactly one instant.
    pub fn from_local(year: i32, month: u32, day: u32, hour: u32, minute: u32, second: u32) -> (r:
        Option<Timestamp>)
        ensures
            r matches Some(u) ==> u.wf() && u.year == year && u.month == month && u.day == day
                && u.hour == hour && u.minute == minute && u.second == second && u.nanosecond == 0,
            !(valid_date(year as int, month as int, day as int) && hour < 24 && minute < 60
                && second < 60) ==> r is None,
    {
        let t = Timestamp { year, month, day, hour, minute, second, nanosecond: 0, offset: 0 };
        match resolve_local(&t) {
            LocalResolution::Unique(u) => Some(u),
            _ => None,
        }
    }

    /// The current time in the local zone.
    pub fn now() -> (r: Timestamp)
        ensures
            r.wf(),
    {
        local_now()
    }

    /// Whether the fields make a well-formed timestamp.
    pub fn is_valid(&self) -> (r: bool)
        ensures
            r == self.wf(),
    {
        MIN_YEAR <= self.year && self.year <= MAX_YEAR && 1 <= self.month && self.month <= 12
            && 1 <= self.day && self.day <= month_length(self.year, self.month) && self.hour < 24 && self.minute < 60
            && self.second < 60 && self.nanosecond < 1_000_000_000 && -86400 < self.offset
            && self.offset < 86400
    }

    /// Day of the week.
    pub fn weekday(&self) -> (r: Weekday)
        requires
            self.wf(),
        ensures
            r.index() == self.weekday_index(),
    {
        Weekday::from_sunday_index(weekday_number(self))
    }
}

/// A day of the week.
#[derive(Clone, Copy, Debug, PartialEq, Eq, Structural)]
pub enum Weekday {
    Mon,
    Tue,
    Wed,
    Thu,
    Fri,
    Sat,
    Sun,
}

impl Weekday {
    /// Days since the preceding Sunday: 0 for Sunday, 6 for Saturday.
    pub open spec fn index(&self) -> int {
        match self {
            Weekday::Sun => 0,
            Weekday::Mon => 1,
            Weekday::Tue => 2,
            Weekday::Wed => 3,
            Weekday::Thu => 4,
            Weekday::Fri => 5,
            Weekday::Sat => 6,
        }
    }

    pub fn num_days_from_sunday(&self) -> (r: u32)
        ensures
            r as int == self.index(),
    {
        match self {
            Weekday::Sun => 0,
            Weekday::Mon => 1,
            Weekday::Tue => 2,
            Weekday::Wed => 3,
            Weekday::Thu => 4,
            Weekday::Fri => 5,
            Weekday::Sat => 6,
        }
    }

    pub fn from_sunday_index(n: u32) -> (r: Weekday)
        requires
            n < 7,
        ensures
            r.index() == n as int,
    {
        match n {
            0 => Weekday::Sun,
            1 => Weekday::Mon,
            2 => Weekday::Tue,
            3 => Weekday::Wed,
            4 => Weekday::Thu,
            5 => Weekday::Fri,
            _ => Weekday::Sat,
        }
    }
}

} // verus!

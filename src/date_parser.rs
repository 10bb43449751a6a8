//! The resolver: walks the parse tree of an expression and computes the
//! timestamp it names, relative to a reference timestamp.
use vstd::arithmetic::div_mod::lemma_fundamental_div_mod_converse;
use vstd::prelude::*;

use crate::calendar::{
    add_seconds, date_shift_months, date_with_year, resolve_local,
    days_in_month, error_of, month_length, fails_with, resolution_result, shifted_month, shifted_year,
    valid_date, within_chrono_range, Timestamp, Weekday, MAX_YEAR, MIN_YEAR,
};
use crate::grammar::{
    expression_of, is_syntax_error, is_weekday_rule, DateExpr, DateParser, DayRef, Pair, Rule,
    TimeOfDay,
};
use crate::readings::{
    direction_of, has_time, is_digits, numeral_value, pm_of, small_number_of, term_of, weekday_of,
};
use crate::ParseDateError;

verus! {

/// Day of the week of a weekday rule: 0 for Sunday, 6 for Saturday.
pub open spec fn rule_weekday(r: Rule) -> int {
    match r {
        Rule::sunday => 0,
        Rule::monday => 1,
        Rule::tuesday => 2,
        Rule::wednesday => 3,
        Rule::thursday => 4,
        Rule::friday => 5,
        _ => 6,
    }
}

pub open spec fn is_direction(r: Rule) -> bool {
    r == Rule::next || r == Rule::last || r == Rule::this
}

/// Days from a day of the week `c` to the target day of the week `t` (both
/// counted from Sunday) for "next", "last" and "this".
///
/// "next" is the day in the following week (weeks start on Sunday), but
/// "next Sunday" is the Sunday after the coming one: the coming Sunday is
/// `7 - c` days away and "next" adds a week to it. "last Sunday" is the
/// Sunday that starts the current week; "last" of another day is that day
/// in the preceding week, which for a day earlier in the week than `c`
/// gives an offset below -7, and the resolver refuses such an offset.
/// "this" is the first such day from today on, within six days.
pub open spec fn weekday_shift(d: Rule, c: int, t: int) -> int {
    if d == Rule::next {
        if t == 0 { (7 - c) + 7 } else { (7 - c) + t }
    } else if d == Rule::last {
        if t == 0 { -c } else { -c - 7 + t }
    } else {
        (t - c) % 7
    }
}

/// 24-hour clock hour of an hour written with AM or PM.
pub open spec fn to_24_hour(h: int, pm: bool) -> int {
    if pm && h < 12 {
        h + 12
    } else if !pm && h == 12 {
        0
    } else {
        h
    }
}

pub open spec fn term_days(t: Rule) -> int {
    if t == Rule::tomorrow {
        1
    } else if t == Rule::yesterday {
        -1
    } else {
        0
    }
}

pub open spec fn unit_seconds(u: Rule) -> int {
    if u == Rule::minute_s {
        60
    } else if u == Rule::hour_s {
        3600
    } else if u == Rule::day_s {
        86400
    } else {
        604800
    }
}

/// `r` is `t` moved by exactly `secs` seconds; it is the error for a date
/// out of range only when `t` or the moved instant lies near the end of
/// chrono's range.
pub open spec fn moved(t: Timestamp, r: Result<Timestamp, ParseDateError>, secs: int) -> bool {
    &&& r matches Ok(u) ==> t.shifted_to(u, secs)
    &&& r is Err ==> fails_with(r, "Date out of range"@) && !(within_chrono_range(t.instant())
        && within_chrono_range(t.instant() + secs))
}

/// `r` is the date of `t` at `hour:minute:00`, or the error for a time that
/// is not valid, or that the local zone skips or repeats.
pub open spec fn at_time(t: Timestamp, r: Result<Timestamp, ParseDateError>, hour: int, minute: int) -> bool {
    &&& r matches Ok(u) ==> u.wf() && u.year == t.year && u.month == t.month && u.day == t.day
        && u.hour == hour && u.minute == minute && u.second == 0 && u.nanosecond == 0
    &&& hour >= 24 || minute >= 60 ==> fails_with(r, "Invalid date or time components"@)
    &&& r is Err ==> fails_with(r, "Invalid date or time components"@) || fails_with(
        r,
        "Ambiguous date and time"@,
    )
}

/// `specific_time` applied to `t`.
pub open spec fn time_result(t: Timestamp, tod: TimeOfDay, r: Result<Timestamp, ParseDateError>) -> bool {
    if tod.hour > 23 {
        fails_with(r, "Invalid hour"@)
    } else {
        at_time(t, r, to_24_hour(tod.hour as int, tod.pm), tod.minute as int)
    }
}

/// A bare weekday: the day of that name in the week of `t` (Sunday first).
pub open spec fn same_week_result(t: Timestamp, w: Rule, r: Result<Timestamp, ParseDateError>) -> bool {
    moved(t, r, (rule_weekday(w) - t.weekday_index()) * 86400)
}

/// "next", "last" or "this" and the day of the week `target` (0 for
/// Sunday); an offset below -7 days is refused.
pub open spec fn weekday_result(t: Timestamp, d: Rule, target: int, r: Result<Timestamp, ParseDateError>) -> bool {
    let k = weekday_shift(d, t.weekday_index(), target);
    if k < -7 {
        fails_with(r, "Weekday shift offset out of range"@)
    } else {
        moved(t, r, k * 86400)
    }
}

pub open spec fn term_result(t: Timestamp, term: Rule, r: Result<Timestamp, ParseDateError>) -> bool {
    if term == Rule::today {
        r == Ok::<Timestamp, ParseDateError>(t)
    } else {
        moved(t, r, term_days(term) * 86400)
    }
}

/// The local zone's refusal of a civil date and time: it skips or repeats it.
pub open spec fn zone_refused(r: Result<Timestamp, ParseDateError>) -> bool {
    fails_with(r, "Invalid date or time components"@) || fails_with(r, "Ambiguous date and time"@)
}

/// `n` months later: same day of the month and time of day. The calendar
/// error comes exactly when that day does not exist in the target month;
/// otherwise the result is the shifted timestamp, unless the local zone
/// skips or repeats that time.
pub open spec fn month_result(t: Timestamp, n: int, r: Result<Timestamp, ParseDateError>) -> bool {
    let y = shifted_year(t.year as int, t.month as int, n);
    let m = shifted_month(t.year as int, t.month as int, n);
    &&& !(MIN_YEAR <= y <= MAX_YEAR && t.day <= days_in_month(y, m)) ==> fails_with(
        r,
        "Invalid month adjustment"@,
    )
    &&& MIN_YEAR <= y <= MAX_YEAR && t.day <= days_in_month(y, m) ==> (r is Ok || zone_refused(r))
    &&& r matches Ok(u) ==> u.wf() && u.year == y && u.month == m && u.day == t.day && u.hour
        == t.hour && u.minute == t.minute && u.second == t.second && u.nanosecond == t.nanosecond
}

/// `n` years later: same month, day and time of day. The calendar error
/// comes exactly when that day does not exist in the target year;
/// otherwise the result is the shifted timestamp, unless the local zone
/// skips or repeats that time.
pub open spec fn year_result(t: Timestamp, n: int, r: Result<Timestamp, ParseDateError>) -> bool {
    let y = t.year + n;
    &&& !valid_date(y, t.month as int, t.day as int) ==> fails_with(r, "Invalid year adjustment"@)
    &&& valid_date(y, t.month as int, t.day as int) ==> (r is Ok || zone_refused(r))
    &&& r matches Ok(u) ==> u.wf() && u.year == y && u.month == t.month && u.day == t.day && u.hour
        == t.hour && u.minute == t.minute && u.second == t.second && u.nanosecond == t.nanosecond
}

/// "in `n` `u`": fixed durations for minutes to weeks, calendar shifts for
/// months and years; a count beyond `i32` is refused.
pub open spec fn future_result(t: Timestamp, n: nat, u: Rule, r: Result<Timestamp, ParseDateError>) -> bool {
    if n > i32::MAX {
        fails_with(r, "Invalid duration value"@)
    } else if u == Rule::month_s {
        month_result(t, n as int, r)
    } else if u == Rule::year_s {
        year_result(t, n as int, r)
    } else {
        moved(t, r, n * unit_seconds(u))
    }
}

/// A time of day applied after a first step that gave `first`.
pub open spec fn then_time(first: Result<Timestamp, ParseDateError>, tod: TimeOfDay, r: Result<Timestamp, ParseDateError>) -> bool {
    match first {
        Ok(v) => time_result(v, tod, r),
        Err(_) => r == first,
    }
}

pub open spec fn day_ref_result(t: Timestamp, d: DayRef, r: Result<Timestamp, ParseDateError>) -> bool {
    match d {
        DayRef::Relative(dir, w) => weekday_result(t, dir, rule_weekday(w), r),
        DayRef::Term(term) => term_result(t, term, r),
    }
}

/// What resolving the expression `e` against `t` may give.
pub open spec fn expression_result(t: Timestamp, e: DateExpr, r: Result<Timestamp, ParseDateError>) -> bool {
    match e {
        DateExpr::RelativeDate(d, w) => weekday_result(t, d, rule_weekday(w), r),
        DateExpr::RelativeTerm(term) => term_result(t, term, r),
        DateExpr::SpecificTime(tod) => time_result(t, tod, r),
        DateExpr::SpecificDay(w) => same_week_result(t, w, r),
        DateExpr::SpecificDayAndTime(w, tod) => exists|v: Result<Timestamp, ParseDateError>|
            #[trigger] same_week_result(t, w, v) && then_time(v, tod, r),
        DateExpr::RelativeDayAndTime(d, tod) => exists|v: Result<Timestamp, ParseDateError>|
            #[trigger] day_ref_result(t, d, v) && then_time(v, tod, r),
        DateExpr::FutureTime(n, u) => future_result(t, n, u, r),
    }
}

/// Message of every error for a tree that the grammar cannot have built.
pub open spec fn bad_tree_message() -> Seq<char> {
    "Unexpected parse tree"@
}

fn add_secs(t: Timestamp, secs: i64) -> (r: Result<Timestamp, ParseDateError>)
    requires
        t.wf(),
    ensures
        moved(t, r, secs as int),
{
    match add_seconds(&t, secs) {
        Some(u) => Ok(u),
        None => error_of("Date out of range"),
    }
}

pub fn process_weekday(day: Rule) -> (r: Result<Weekday, ParseDateError>)
    ensures
        is_weekday_rule(day) ==> (r matches Ok(w) && w.index() == rule_weekday(day)),
        !is_weekday_rule(day) ==> fails_with(r, "Invalid weekday"@),
{
    match day {
        Rule::monday => Ok(Weekday::Mon),
        Rule::tuesday => Ok(Weekday::Tue),
        Rule::wednesday => Ok(Weekday::Wed),
        Rule::thursday => Ok(Weekday::Thu),
        Rule::friday => Ok(Weekday::Fri),
        Rule::saturday => Ok(Weekday::Sat),
        Rule::sunday => Ok(Weekday::Sun),
        _ => error_of("Invalid weekday"),
    }
}

/// The day named by the weekday rule `rule` in the week of `datetime`
/// (weeks start on Sunday), at the same time of day; it may lie before
/// `datetime`.
pub fn process_specific_day(rule: Rule, datetime: Timestamp) -> (r: Result<Timestamp, ParseDateError>)
    requires
        datetime.wf(),
    ensures
        is_weekday_rule(rule) ==> same_week_result(datetime, rule, r),
        !is_weekday_rule(rule) ==> fails_with(r, "Invalid weekday"@),
{
    let target = match process_weekday(rule) {
        Ok(w) => w,
        Err(e) => return Err(e),
    };
    let c = datetime.weekday().num_days_from_sunday();
    let days = target.num_days_from_sunday() as i64 - c as i64;
    add_secs(datetime, days * 86400)
}

/// The date of `datetime` at `hour:minute:00` in the local zone.
pub fn change_time(datetime: Timestamp, hour: u32, minute: u32) -> (r: Result<Timestamp, ParseDateError>)
    requires
        datetime.wf(),
    ensures
        at_time(datetime, r, hour as int, minute as int),
{
    let target = Timestamp { hour, minute, second: 0, nanosecond: 0, ..datetime };
    resolution_result(resolve_local(&target))
}

/// Days to move for `direction` from day of the week `current` to `target`
/// (both counted from Sunday).
pub fn weekday_shift_days(direction: Rule, current: u32, target: u32) -> (r: i64)
    requires
        is_direction(direction),
        current < 7,
        target < 7,
    ensures
        r == weekday_shift(direction, current as int, target as int),
{
    let c = current as i64;
    let t = target as i64;
    if direction == Rule::next {
        if t == 0 { (7 - c) + 7 } else { (7 - c) + t }
    } else if direction == Rule::last {
        if t == 0 { -c } else { -c - 7 + t }
    } else {
        let diff = t - c;
        if diff >= 0 { diff } else { diff + 7 }
    }
}

/// `now` moved to `target_weekday` as `direction` ("next", "last" or
/// "this") reads it, at the same time of day.
pub fn shift_to_weekday(now: Timestamp, target_weekday: Weekday, direction: Rule) -> (r: Result<
    Timestamp,
    ParseDateError,
>)
    requires
        now.wf(),
    ensures
        is_direction(direction) ==> weekday_result(now, direction, target_weekday.index(), r),
        !is_direction(direction) ==> fails_with(r, "Expected last, this or next"@),
{
    if !(direction == Rule::next || direction == Rule::last || direction == Rule::this) {
        return error_of("Expected last, this or next");
    }
    let c = now.weekday().num_days_from_sunday();
    let days = weekday_shift_days(direction, c, target_weekday.num_days_from_sunday());
    if days < -7 {
        return error_of("Weekday shift offset out of range");
    }
    add_secs(now, days * 86400)
}

/// Whether an `am_pm` node says PM.
pub fn process_is_pm(pair: &Pair) -> (r: Option<bool>)
    ensures
        r == pair.is_pm(),
{
    pm_of(pair)
}

pub fn process_relative_term(pair: &Pair, datetime: Timestamp) -> (r: Result<Timestamp, ParseDateError>)
    requires
        datetime.wf(),
    ensures
        match pair.term() {
            Some(t) => term_result(datetime, t, r),
            None => fails_with(r, bad_tree_message()),
        },
{
    match term_of(pair) {
        Some(Rule::today) => Ok(datetime),
        Some(Rule::tomorrow) => add_secs(datetime, 86400),
        Some(Rule::yesterday) => add_secs(datetime, -86400),
        _ => error_of("Unexpected parse tree"),
    }
}

pub fn process_specific_time(pair: &Pair, datetime: Timestamp) -> (r: Result<Timestamp, ParseDateError>)
    requires
        datetime.wf(),
    ensures
        match pair.time() {
            Some(tod) => time_result(datetime, tod, r),
            None => fails_with(r, bad_tree_message()),
        },
{
    let n = pair.inner.len();
    if pair.rule != Rule::specific_time || !(n == 2 || n == 3) {
        return error_of("Unexpected parse tree");
    }
    let hour = small_number_of(&pair.inner[0], Rule::hour);
    let minute = if n == 3 {
        small_number_of(&pair.inner[1], Rule::minute)
    } else {
        Some(0)
    };
    let a = &pair.inner[n - 1];
    let pm = if a.rule == Rule::am_pm {
        process_is_pm(a)
    } else {
        None
    };
    match (hour, minute, pm) {
        (Some(h), Some(m), Some(pm)) => {
            if h > 23 {
                return error_of("Invalid hour");
            }
            let h24 = if pm && h < 12 {
                h + 12
            } else if !pm && h == 12 {
                0
            } else {
                h
            };
            change_time(datetime, h24, m)
        },
        _ => error_of("Unexpected parse tree"),
    }
}

pub fn process_relative_date(pair: &Pair, datetime: Timestamp) -> (r: Result<Timestamp, ParseDateError>)
    requires
        datetime.wf(),
    ensures
        match pair.relative_date() {
            Some((d, w)) => weekday_result(datetime, d, rule_weekday(w), r),
            None => fails_with(r, bad_tree_message()),
        },
{
    if pair.rule != Rule::relative_date || pair.inner.len() != 2 {
        return error_of("Unexpected parse tree");
    }
    match (direction_of(&pair.inner[0]), weekday_of(&pair.inner[1])) {
        (Some(d), Some(w)) => match process_weekday(w) {
            Ok(target) => shift_to_weekday(datetime, target, d),
            Err(e) => Err(e),
        },
        _ => error_of("Unexpected parse tree"),
    }
}


/// `datetime` moved `n` months on, the day of the month and the time of
/// day kept; refused when that day does not exist in the target month.
pub fn shift_months(datetime: Timestamp, n: i32) -> (r: Result<Timestamp, ParseDateError>)
    requires
        datetime.wf(),
    ensures
        month_result(datetime, n as int, r),
{
    let total: i64 = datetime.year as i64 * 12 + (datetime.month as i64 - 1) + n as i64;
    let lo: i64 = MIN_YEAR as i64 * 12;
    let hi: i64 = MAX_YEAR as i64 * 12 + 11;
    if total < lo || total > hi {
        proof {
            let y = shifted_year(datetime.year as int, datetime.month as int, n as int);
            let m = shifted_month(datetime.year as int, datetime.month as int, n as int);
            lemma_fundamental_div_mod_converse(total as int, 12, y, m - 1);
        }
        return error_of("Invalid month adjustment");
    }
    let rel = total - lo;
    let year = rel / 12 + MIN_YEAR as i64;
    let month = rel % 12 + 1;
    proof {
        lemma_fundamental_div_mod_converse(total as int, 12, year as int, month - 1);
    }
    if datetime.day > month_length(year as i32, month as u32) {
        return error_of("Invalid month adjustment");
    }
    let moved_date = match date_shift_months(&datetime, n) {
        Some(d) => d,
        None => return error_of("Invalid month adjustment"),
    };
    resolution_result(resolve_local(&moved_date))
}

/// `datetime` moved `n` years on, the month, day and time of day kept;
/// refused when that day does not exist in the target year.
pub fn shift_years(datetime: Timestamp, n: i32) -> (r: Result<Timestamp, ParseDateError>)
    requires
        datetime.wf(),
    ensures
        year_result(datetime, n as int, r),
{
    let year: i64 = datetime.year as i64 + n as i64;
    if year < MIN_YEAR as i64 || year > MAX_YEAR as i64 {
        return error_of("Invalid year adjustment");
    }
    let moved_date = match date_with_year(&datetime, year as i32) {
        Some(d) => d,
        None => return error_of("Invalid year adjustment"),
    };
    resolution_result(resolve_local(&moved_date))
}

pub fn process_future_time(pair: &Pair, datetime: Timestamp) -> (r: Result<Timestamp, ParseDateError>)
    requires
        datetime.wf(),
    ensures
        match pair.future() {
            Some((n, u)) => future_result(datetime, n, u, r),
            None => fails_with(r, bad_tree_message()),
        },
{
    if pair.rule != Rule::future_time || pair.inner.len() != 2 {
        return error_of("Unexpected parse tree");
    }
    let number = &pair.inner[0];
    let unit = pair.inner[1].rule;
    if number.rule != Rule::number || number.text.len() == 0 || !is_digits(&number.text) || !(
    unit == Rule::minute_s || unit == Rule::hour_s || unit == Rule::day_s || unit == Rule::week_s
        || unit == Rule::month_s || unit == Rule::year_s) {
        return error_of("Unexpected parse tree");
    }
    let n = match numeral_value(&number.text) {
        Some(n) => n,
        None => return error_of("Invalid duration value"),
    };
    let count = n as i64;
    match unit {
        Rule::minute_s => add_secs(datetime, count * 60),
        Rule::hour_s => add_secs(datetime, count * 3600),
        Rule::day_s => add_secs(datetime, count * 86400),
        Rule::week_s => add_secs(datetime, count * 604800),
        Rule::month_s => shift_months(datetime, n),
        _ => shift_years(datetime, n),
    }
}

pub fn process_specific_day_and_time(pair: &Pair, datetime: Timestamp) -> (r: Result<
    Timestamp,
    ParseDateError,
>)
    requires
        datetime.wf(),
    ensures
        match pair.day_and_time() {
            Some((w, tod)) => exists|v: Result<Timestamp, ParseDateError>|
                #[trigger] same_week_result(datetime, w, v) && then_time(v, tod, r),
            None => fails_with(r, bad_tree_message()),
        },
{
    if pair.rule != Rule::specific_day_and_time || pair.inner.len() != 2 {
        return error_of("Unexpected parse tree");
    }
    let w = match weekday_of(&pair.inner[0]) {
        Some(w) => w,
        None => return error_of("Unexpected parse tree"),
    };
    if has_time(&pair.inner[1]) {
        let first = process_specific_day(w, datetime);
        let ghost g = first;
        let r = match first {
            Ok(v) => process_specific_time(&pair.inner[1], v),
            Err(e) => Err(e),
        };
        assert(same_week_result(datetime, w, g) && then_time(g, pair.child(1).time()->0, r));
        r
    } else {
        error_of("Unexpected parse tree")
    }
}

pub fn process_relative_day_and_specific_time(pair: &Pair, datetime: Timestamp) -> (r: Result<
    Timestamp,
    ParseDateError,
>)
    requires
        datetime.wf(),
    ensures
        match pair.day_ref_and_time() {
            Some((d, tod)) => exists|v: Result<Timestamp, ParseDateError>|
                #[trigger] day_ref_result(datetime, d, v) && then_time(v, tod, r),
            None => fails_with(r, bad_tree_message()),
        },
{
    if pair.rule != Rule::relative_day_and_specific_time || pair.inner.len() != 2
        || !has_time(&pair.inner[1]) {
        return error_of("Unexpected parse tree");
    }
    let day = &pair.inner[0];
    let first = if day.rule == Rule::relative_date && day.inner.len() == 2 && direction_of(
        &day.inner[0],
    ).is_some() && weekday_of(&day.inner[1]).is_some() {
        process_relative_date(day, datetime)
    } else if term_of(day).is_some() {
        process_relative_term(day, datetime)
    } else {
        return error_of("Unexpected parse tree");
    };
    let ghost g = first;
    let r = match first {
        Ok(v) => process_specific_time(&pair.inner[1], v),
        Err(e) => Err(e),
    };
    assert(day_ref_result(datetime, pair.child(0).day_ref()->0, g) && then_time(
        g,
        pair.child(1).time()->0,
        r,
    ));
    r
}


/// Resolves a `date_expression` node against `datetime`.
pub fn process_date_expression(pair: &Pair, datetime: Timestamp) -> (r: Result<
    Timestamp,
    ParseDateError,
>)
    requires
        datetime.wf(),
    ensures
        match pair.expression() {
            Some(e) => expression_result(datetime, e, r),
            None => fails_with(r, bad_tree_message()),
        },
{
    if pair.rule != Rule::date_expression || pair.inner.len() != 1 {
        return error_of("Unexpected parse tree");
    }
    let c = &pair.inner[0];
    match c.rule {
        Rule::relative_date => process_relative_date(c, datetime),
        Rule::relative_term => process_relative_term(c, datetime),
        Rule::specific_time => process_specific_time(c, datetime),
        Rule::specific_day => match weekday_of(c) {
            Some(w) => process_specific_day(w, datetime),
            None => error_of("Unexpected parse tree"),
        },
        Rule::specific_day_and_time => process_specific_day_and_time(c, datetime),
        Rule::relative_day_and_specific_time => process_relative_day_and_specific_time(c, datetime),
        Rule::future_time => process_future_time(c, datetime),
        _ => error_of("Unexpected parse tree"),
    }
}

/// Resolves the expression `string` against `reference_date`: a syntax
/// error when the grammar rejects it, else the timestamp it names.
pub fn from_string_with_reference(string: &str, reference_date: Timestamp) -> (r: Result<
    Timestamp,
    ParseDateError,
>)
    requires
        reference_date.wf(),
    ensures
        match expression_of(string@) {
            Some(e) => expression_result(reference_date, e, r),
            None => is_syntax_error(r),
        },
{
    match DateParser::parse_expression(string) {
        Ok(pair) => process_date_expression(&pair, reference_date),
        Err(e) => Err(e),
    }
}

/// Resolves the expression `string` against the current time in the local
/// zone.
pub fn from_string(string: &str) -> (r: Result<Timestamp, ParseDateError>)
    ensures
        match expression_of(string@) {
            Some(e) => exists|t: Timestamp| t.wf() && #[trigger] expression_result(t, e, r),
            None => is_syntax_error(r),
        },
{
    let reference = Timestamp::now();
    let r = from_string_with_reference(string, reference);
    assert(expression_of(string@) is Some ==> expression_result(reference, expression_of(string@)->0, r));
    r
}

} // verus!

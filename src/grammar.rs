//! The grammar of date expressions, as spec functions over the characters
//! of the input, and the parser that builds a tree of `Pair`s for it.
//!
//! ```text
//! date_expression = shape, with nothing but spaces around it; the shape is
//!                   the first of these that matches:
//!     relative_day_and_specific_time = (relative_date | relative_term) "at" specific_time
//!     specific_day_and_time          = specific_day "at" specific_time
//!     relative_date                  = ("next" | "last" | "this") specific_day
//!     relative_term                  = "today" | "tomorrow" | "yesterday"
//!     specific_time                  = hour ":" minute ("am" | "pm")
//!     specific_day                   = "monday" | "tuesday" | ... | "sunday"
//!     future_time                    = "in" number unit
//! hour   = one or two digits (read against AM/PM later)
//! minute = a digit 0-5 then a digit, or a single digit
//! number = one or more digits
//! unit   = "minute" | "hour" | "day" | "week" | "month" | "year", each with
//!          an optional final "s"
//! ```
//!
//! Keywords match without regard to ASCII case. Spaces, tabs and line breaks
//! may stand between tokens, never inside one.
use vstd::prelude::*;
use vstd::string::*;

use crate::ParseDateError;

verus! {

/// The grammar's rules; a tree node is tagged with the rule that built it.
#[allow(non_camel_case_types)]
#[derive(Clone, Copy, Debug, PartialEq, Eq, Structural)]
pub enum Rule {
    EOI,
    WHITESPACE,
    date_expression,
    relative_date,
    relative_term,
    specific_time,
    specific_day,
    specific_day_and_time,
    relative_day_and_specific_time,
    future_time,
    next_or_last,
    next,
    last,
    this,
    today,
    tomorrow,
    yesterday,
    monday,
    tuesday,
    wednesday,
    thursday,
    friday,
    saturday,
    sunday,
    hour,
    minute,
    am_pm,
    am,
    pm,
    number,
    time_unit,
    minute_s,
    hour_s,
    day_s,
    week_s,
    month_s,
    year_s,
}

pub open spec fn is_space(c: char) -> bool {
    c == ' ' || c == '\t' || c == '\n' || c == '\r'
}

pub open spec fn is_digit(c: char) -> bool {
    '0' <= c <= '9'
}

/// First position at or after `i` that holds no space.
pub open spec fn skip_spaces(s: Seq<char>, i: int) -> int
    decreases s.len() - i,
{
    if 0 <= i < s.len() && is_space(s[i]) {
        skip_spaces(s, i + 1)
    } else {
        i
    }
}

/// `c` is the lower-case letter `k`, or its upper-case form; any other
/// character only matches itself.
pub open spec fn same_letter(c: char, k: char) -> bool {
    c == k || ('a' <= k <= 'z' && c as u32 + 32 == k as u32)
}

/// The keyword `w` (written in lower case) stands at position `i`.
pub open spec fn keyword_at(s: Seq<char>, i: int, w: Seq<char>) -> bool {
    &&& 0 <= i
    &&& i + w.len() <= s.len()
    &&& forall|k: int| 0 <= k < w.len() ==> same_letter(#[trigger] s[i + k], w[k])
}

/// The text of each keyword rule (the unit rules also take a final "s").
pub open spec fn keyword(r: Rule) -> Seq<char> {
    match r {
        Rule::next => "next"@,
        Rule::last => "last"@,
        Rule::this => "this"@,
        Rule::today => "today"@,
        Rule::tomorrow => "tomorrow"@,
        Rule::yesterday => "yesterday"@,
        Rule::monday => "monday"@,
        Rule::tuesday => "tuesday"@,
        Rule::wednesday => "wednesday"@,
        Rule::thursday => "thursday"@,
        Rule::friday => "friday"@,
        Rule::saturday => "saturday"@,
        Rule::sunday => "sunday"@,
        Rule::am => "am"@,
        Rule::pm => "pm"@,
        Rule::minute_s => "minute"@,
        Rule::hour_s => "hour"@,
        Rule::day_s => "day"@,
        Rule::week_s => "week"@,
        Rule::month_s => "month"@,
        Rule::year_s => "year"@,
        _ => ""@,
    }
}

pub open spec fn keyword_end(s: Seq<char>, i: int, r: Rule) -> int {
    i + keyword(r).len()
}

pub open spec fn weekday_at(s: Seq<char>, i: int) -> Option<Rule> {
    if keyword_at(s, i, keyword(Rule::monday)) {
        Some(Rule::monday)
    } else if keyword_at(s, i, keyword(Rule::tuesday)) {
        Some(Rule::tuesday)
    } else if keyword_at(s, i, keyword(Rule::wednesday)) {
        Some(Rule::wednesday)
    } else if keyword_at(s, i, keyword(Rule::thursday)) {
        Some(Rule::thursday)
    } else if keyword_at(s, i, keyword(Rule::friday)) {
        Some(Rule::friday)
    } else if keyword_at(s, i, keyword(Rule::saturday)) {
        Some(Rule::saturday)
    } else if keyword_at(s, i, keyword(Rule::sunday)) {
        Some(Rule::sunday)
    } else {
        None
    }
}

/// `next`, `last` or `this`.
pub open spec fn direction_at(s: Seq<char>, i: int) -> Option<Rule> {
    if keyword_at(s, i, keyword(Rule::next)) {
        Some(Rule::next)
    } else if keyword_at(s, i, keyword(Rule::last)) {
        Some(Rule::last)
    } else if keyword_at(s, i, keyword(Rule::this)) {
        Some(Rule::this)
    } else {
        None
    }
}

pub open spec fn term_at(s: Seq<char>, i: int) -> Option<Rule> {
    if keyword_at(s, i, keyword(Rule::today)) {
        Some(Rule::today)
    } else if keyword_at(s, i, keyword(Rule::tomorrow)) {
        Some(Rule::tomorrow)
    } else if keyword_at(s, i, keyword(Rule::yesterday)) {
        Some(Rule::yesterday)
    } else {
        None
    }
}

pub open spec fn am_pm_at(s: Seq<char>, i: int) -> Option<Rule> {
    if keyword_at(s, i, keyword(Rule::am)) {
        Some(Rule::am)
    } else if keyword_at(s, i, keyword(Rule::pm)) {
        Some(Rule::pm)
    } else {
        None
    }
}

pub open spec fn unit_at(s: Seq<char>, i: int) -> Option<Rule> {
    if keyword_at(s, i, keyword(Rule::minute_s)) {
        Some(Rule::minute_s)
    } else if keyword_at(s, i, keyword(Rule::hour_s)) {
        Some(Rule::hour_s)
    } else if keyword_at(s, i, keyword(Rule::day_s)) {
        Some(Rule::day_s)
    } else if keyword_at(s, i, keyword(Rule::week_s)) {
        Some(Rule::week_s)
    } else if keyword_at(s, i, keyword(Rule::month_s)) {
        Some(Rule::month_s)
    } else if keyword_at(s, i, keyword(Rule::year_s)) {
        Some(Rule::year_s)
    } else {
        None
    }
}

/// End of a unit word: the singular, then an optional "s".
pub open spec fn unit_end(s: Seq<char>, i: int, r: Rule) -> int {
    let e = keyword_end(s, i, r);
    if 0 <= e < s.len() && same_letter(s[e], 's') {
        e + 1
    } else {
        e
    }
}

/// End of the run of digits that starts at `i`.
pub open spec fn digits_end(s: Seq<char>, i: int) -> int
    decreases s.len() - i,
{
    if 0 <= i < s.len() && is_digit(s[i]) {
        digits_end(s, i + 1)
    } else {
        i
    }
}

/// `number`: one or more digits.
pub open spec fn number_end(s: Seq<char>, i: int) -> Option<int> {
    if 0 <= i < s.len() && is_digit(s[i]) {
        Some(digits_end(s, i))
    } else {
        None
    }
}

/// `hour`: one or two digits.
pub open spec fn hour_end(s: Seq<char>, i: int) -> Option<int> {
    if 0 <= i < s.len() && is_digit(s[i]) {
        if i + 1 < s.len() && is_digit(s[i + 1]) {
            Some(i + 2)
        } else {
            Some(i + 1)
        }
    } else {
        None
    }
}

/// `minute`: a digit from 0 to 5 then a digit, or else a single digit.
pub open spec fn minute_end(s: Seq<char>, i: int) -> Option<int> {
    if 0 <= i && i + 1 < s.len() && '0' <= s[i] <= '5' && is_digit(s[i + 1]) {
        Some(i + 2)
    } else if 0 <= i < s.len() && is_digit(s[i]) {
        Some(i + 1)
    } else {
        None
    }
}

pub open spec fn digit_value(c: char) -> nat {
    (c as u32 - '0' as u32) as nat
}

/// The decimal value of a sequence of digits.
pub open spec fn digits_value(d: Seq<char>) -> nat
    decreases d.len(),
{
    if d.len() == 0 {
        0
    } else {
        digits_value(d.drop_last()) * 10 + digit_value(d.last())
    }
}

pub open spec fn all_digits(d: Seq<char>) -> bool {
    forall|k: int| 0 <= k < d.len() ==> is_digit(#[trigger] d[k])
}

/// A time of day as written: the hour as written (not yet read against
/// AM/PM), the minute, and whether PM was given.
pub struct TimeOfDay {
    pub hour: nat,
    pub minute: nat,
    pub pm: bool,
}

/// `specific_time`: hour ":" minute am_pm.
pub open spec fn time_at(s: Seq<char>, i: int) -> Option<(TimeOfDay, int)> {
    match hour_end(s, i) {
        None => None,
        Some(h) => {
            let c = skip_spaces(s, h);
            if 0 <= c < s.len() && s[c] == ':' {
                let m0 = skip_spaces(s, c + 1);
                match minute_end(s, m0) {
                    None => None,
                    Some(m) => {
                        let a = skip_spaces(s, m);
                        match am_pm_at(s, a) {
                            None => None,
                            Some(ap) => Some(
                                (
                                    TimeOfDay {
                                        hour: digits_value(s.subrange(i, h)),
                                        minute: digits_value(s.subrange(m0, m)),
                                        pm: ap == Rule::pm,
                                    },
                                    keyword_end(s, a, ap),
                                ),
                            ),
                        }
                    },
                }
            } else {
                None
            }
        },
    }
}

/// `relative_date`: a direction then a weekday.
pub open spec fn relative_date_at(s: Seq<char>, i: int) -> Option<((Rule, Rule), int)> {
    match direction_at(s, i) {
        None => None,
        Some(d) => {
            let j = skip_spaces(s, keyword_end(s, i, d));
            match weekday_at(s, j) {
                None => None,
                Some(w) => Some(((d, w), keyword_end(s, j, w))),
            }
        },
    }
}

/// The day that a `relative_day_and_specific_time` starts from.
pub enum DayRef {
    Relative(Rule, Rule),
    Term(Rule),
}

pub open spec fn day_ref_at(s: Seq<char>, i: int) -> Option<(DayRef, int)> {
    match relative_date_at(s, i) {
        Some(((d, w), e)) => Some((DayRef::Relative(d, w), e)),
        None => match term_at(s, i) {
            Some(t) => Some((DayRef::Term(t), keyword_end(s, i, t))),
            None => None,
        },
    }
}

/// `"at" specific_time`, after the spaces that follow position `i`.
pub open spec fn at_time_after(s: Seq<char>, i: int) -> Option<(TimeOfDay, int)> {
    let j = skip_spaces(s, i);
    if keyword_at(s, j, "at"@) {
        time_at(s, skip_spaces(s, j + "at"@.len()))
    } else {
        None
    }
}

/// `future_time`: "in" number unit.
pub open spec fn future_at(s: Seq<char>, i: int) -> Option<((nat, Rule), int)> {
    if keyword_at(s, i, "in"@) {
        let j = skip_spaces(s, i + "in"@.len());
        match number_end(s, j) {
            None => None,
            Some(e) => {
                let k = skip_spaces(s, e);
                match unit_at(s, k) {
                    None => None,
                    Some(u) => Some(((digits_value(s.subrange(j, e)), u), unit_end(s, k, u))),
                }
            },
        }
    } else {
        None
    }
}

/// What a date expression says.
pub enum DateExpr {
    RelativeDate(Rule, Rule),
    RelativeTerm(Rule),
    SpecificTime(TimeOfDay),
    SpecificDay(Rule),
    SpecificDayAndTime(Rule, TimeOfDay),
    RelativeDayAndTime(DayRef, TimeOfDay),
    FutureTime(nat, Rule),
}

/// The first of the expression shapes that matches at `i`, in the order
/// relative_day_and_specific_time, specific_day_and_time, relative_date,
/// relative_term, specific_time, specific_day, future_time.
/// `relative_day_and_specific_time`: (relative_date | relative_term) "at" specific_time.
pub open spec fn day_ref_and_time_at(s: Seq<char>, i: int) -> Option<((DayRef, TimeOfDay), int)> {
    match day_ref_at(s, i) {
        None => None,
        Some((r, e)) => match at_time_after(s, e) {
            None => None,
            Some((t, end)) => Some(((r, t), end)),
        },
    }
}

/// `specific_day_and_time`: specific_day "at" specific_time.
pub open spec fn day_and_time_at(s: Seq<char>, i: int) -> Option<((Rule, TimeOfDay), int)> {
    match weekday_at(s, i) {
        None => None,
        Some(w) => match at_time_after(s, keyword_end(s, i, w)) {
            None => None,
            Some((t, end)) => Some(((w, t), end)),
        },
    }
}

/// The first of the expression shapes that matches at `i`, in the order
/// relative_day_and_specific_time, specific_day_and_time, relative_date,
/// relative_term, specific_time, specific_day, future_time.
pub open spec fn shape_at(s: Seq<char>, i: int) -> Option<(DateExpr, int)> {
    if let Some(((r, t), end)) = day_ref_and_time_at(s, i) {
        Some((DateExpr::RelativeDayAndTime(r, t), end))
    } else if let Some(((w, t), end)) = day_and_time_at(s, i) {
        Some((DateExpr::SpecificDayAndTime(w, t), end))
    } else if let Some(((d, w), end)) = relative_date_at(s, i) {
        Some((DateExpr::RelativeDate(d, w), end))
    } else if let Some(t) = term_at(s, i) {
        Some((DateExpr::RelativeTerm(t), keyword_end(s, i, t)))
    } else if let Some((t, end)) = time_at(s, i) {
        Some((DateExpr::SpecificTime(t), end))
    } else if let Some(w) = weekday_at(s, i) {
        Some((DateExpr::SpecificDay(w), keyword_end(s, i, w)))
    } else if let Some(((n, u), end)) = future_at(s, i) {
        Some((DateExpr::FutureTime(n, u), end))
    } else {
        None
    }
}

/// Where the expression starts: after any leading spaces.
pub open spec fn expression_start(s: Seq<char>) -> int {
    skip_spaces(s, 0)
}

/// `date_expression`: one shape, with only spaces around it.
pub open spec fn expression_of(s: Seq<char>) -> Option<DateExpr> {
    match shape_at(s, expression_start(s)) {
        Some((e, end)) => if skip_spaces(s, end) == s.len() {
            Some(e)
        } else {
            None
        },
        None => None,
    }
}

/// End of the shape that matches at `i`.
pub open spec fn shape_end(s: Seq<char>, i: int) -> int {
    let (_, end) = shape_at(s, i)->0;
    end
}

/// End of the matched shape, when the whole input is one expression.
pub open spec fn expression_end(s: Seq<char>) -> int {
    shape_end(s, expression_start(s))
}

/// A node of the parse tree: the rule that matched, the span of the input
/// it covers, that span's text, and the nodes of its sub-rules in order.
#[derive(Debug)]
pub struct Pair {
    pub rule: Rule,
    pub start: usize,
    pub end: usize,
    pub text: Vec<char>,
    pub inner: Vec<Pair>,
}

impl Pair {
    /// This node covers `s[start..end]`, with rule `rule`.
    pub open spec fn covers(&self, rule: Rule, s: Seq<char>, start: int, end: int) -> bool {
        &&& self.rule == rule
        &&& self.start == start
        &&& self.end == end
        &&& 0 <= start <= end <= s.len()
        &&& self.text@ == s.subrange(start, end)
    }

    pub open spec fn child(&self, k: int) -> Pair {
        self.inner@[k]
    }

    /// The keyword below a node of a choice rule such as `specific_day`.
    pub open spec fn choice(&self, rule: Rule) -> Option<Rule> {
        if self.rule == rule && self.inner@.len() == 1 {
            Some(self.child(0).rule)
        } else {
            None
        }
    }

    pub open spec fn weekday(&self) -> Option<Rule> {
        match self.choice(Rule::specific_day) {
            Some(w) => if is_weekday_rule(w) {
                Some(w)
            } else {
                None
            },
            None => None,
        }
    }

    pub open spec fn direction(&self) -> Option<Rule> {
        match self.choice(Rule::next_or_last) {
            Some(d) => if d == Rule::next || d == Rule::last || d == Rule::this {
                Some(d)
            } else {
                None
            },
            None => None,
        }
    }

    pub open spec fn term(&self) -> Option<Rule> {
        match self.choice(Rule::relative_term) {
            Some(t) => if t == Rule::today || t == Rule::tomorrow || t == Rule::yesterday {
                Some(t)
            } else {
                None
            },
            None => None,
        }
    }

    /// `Some(true)` for PM, `Some(false)` for AM.
    pub open spec fn is_pm(&self) -> Option<bool> {
        if self.inner@.len() >= 1 && self.child(0).rule == Rule::pm {
            Some(true)
        } else if self.inner@.len() >= 1 && self.child(0).rule == Rule::am {
            Some(false)
        } else {
            None
        }
    }

    /// One or two digits, tagged `rule`.
    pub open spec fn small_number(&self, rule: Rule) -> Option<nat> {
        if self.rule == rule && 1 <= self.text@.len() <= 2 && all_digits(self.text@) {
            Some(digits_value(self.text@))
        } else {
            None
        }
    }

    pub open spec fn time(&self) -> Option<TimeOfDay> {
        let n = self.inner@.len();
        if self.rule != Rule::specific_time || !(n == 2 || n == 3) {
            None
        } else {
            let h = self.child(0).small_number(Rule::hour);
            let m = if n == 3 { self.child(1).small_number(Rule::minute) } else { Some(0nat) };
            let a = self.child(n - 1);
            if h is Some && m is Some && a.rule == Rule::am_pm && a.is_pm() is Some {
                Some(TimeOfDay { hour: h->0, minute: m->0, pm: a.is_pm()->0 })
            } else {
                None
            }
        }
    }

    pub open spec fn relative_date(&self) -> Option<(Rule, Rule)> {
        if self.rule == Rule::relative_date && self.inner@.len() == 2
            && self.child(0).direction() is Some && self.child(1).weekday() is Some {
            Some((self.child(0).direction()->0, self.child(1).weekday()->0))
        } else {
            None
        }
    }

    pub open spec fn day_ref(&self) -> Option<DayRef> {
        if let Some((d, w)) = self.relative_date() {
            Some(DayRef::Relative(d, w))
        } else if self.term() is Some {
            Some(DayRef::Term(self.term()->0))
        } else {
            None
        }
    }

    pub open spec fn day_and_time(&self) -> Option<(Rule, TimeOfDay)> {
        if self.rule == Rule::specific_day_and_time && self.inner@.len() == 2
            && self.child(0).weekday() is Some && self.child(1).time() is Some {
            Some((self.child(0).weekday()->0, self.child(1).time()->0))
        } else {
            None
        }
    }

    pub open spec fn day_ref_and_time(&self) -> Option<(DayRef, TimeOfDay)> {
        if self.rule == Rule::relative_day_and_specific_time && self.inner@.len() == 2
            && self.child(0).day_ref() is Some && self.child(1).time() is Some {
            Some((self.child(0).day_ref()->0, self.child(1).time()->0))
        } else {
            None
        }
    }

    pub open spec fn future(&self) -> Option<(nat, Rule)> {
        if self.rule == Rule::future_time && self.inner@.len() == 2
            && self.child(0).rule == Rule::number && self.child(0).text@.len() >= 1
            && all_digits(self.child(0).text@) && is_unit_rule(self.child(1).rule) {
            Some((digits_value(self.child(0).text@), self.child(1).rule))
        } else {
            None
        }
    }

    /// What a `date_expression` node says.
    pub open spec fn expression(&self) -> Option<DateExpr> {
        if self.rule != Rule::date_expression || self.inner@.len() != 1 {
            None
        } else {
            self.child(0).shape()
        }
    }

    /// What the node of one expression shape says.
    pub open spec fn shape(&self) -> Option<DateExpr> {
        {
            let c = *self;
            if let Some((d, w)) = c.relative_date() {
                Some(DateExpr::RelativeDate(d, w))
            } else if c.term() is Some {
                Some(DateExpr::RelativeTerm(c.term()->0))
            } else if c.time() is Some {
                Some(DateExpr::SpecificTime(c.time()->0))
            } else if c.weekday() is Some {
                Some(DateExpr::SpecificDay(c.weekday()->0))
            } else if let Some((w, t)) = c.day_and_time() {
                Some(DateExpr::SpecificDayAndTime(w, t))
            } else if let Some((r, t)) = c.day_ref_and_time() {
                Some(DateExpr::RelativeDayAndTime(r, t))
            } else if let Some((n, u)) = c.future() {
                Some(DateExpr::FutureTime(n, u))
            } else {
                None
            }
        }
    }
}

pub open spec fn is_weekday_rule(r: Rule) -> bool {
    r == Rule::monday || r == Rule::tuesday || r == Rule::wednesday || r == Rule::thursday
        || r == Rule::friday || r == Rule::saturday || r == Rule::sunday
}

pub open spec fn is_unit_rule(r: Rule) -> bool {
    r == Rule::minute_s || r == Rule::hour_s || r == Rule::day_s || r == Rule::week_s
        || r == Rule::month_s || r == Rule::year_s
}

pub fn space_end(s: &Vec<char>, i: usize) -> (r: usize)
    requires
        i <= s.len(),
    ensures
        r == skip_spaces(s@, i as int),
        i <= r <= s.len(),
{
    let mut j = i;
    while j < s.len() && (s[j] == ' ' || s[j] == '\t' || s[j] == '\n' || s[j] == '\r')
        invariant
            i <= j <= s.len(),
            skip_spaces(s@, i as int) == skip_spaces(s@, j as int),
        decreases s.len() - j,
    {
        j = j + 1;
    }
    j
}

pub fn keyword_matches(s: &Vec<char>, i: usize, w: &str) -> (r: bool)
    requires
        i <= s.len(),
    ensures
        r == keyword_at(s@, i as int, w@),
{
    let n = w.unicode_len();
    if n > s.len() - i {
        return false;
    }
    let mut k: usize = 0;
    while k < n
        invariant
            n == w@.len(),
            i + n <= s.len(),
            k <= n,
            forall|q: int| 0 <= q < k ==> same_letter(#[trigger] s@[i + q], w@[q]),
        decreases n - k,
    {
        let c = s[i + k];
        let l = w.get_char(k);
        let same = c == l || ('a' <= l && l <= 'z' && (c as u32) == (l as u32) - 32);
        if !same {
            assert(!same_letter(s@[i + k as int], w@[k as int]));
            return false;
        }
        k = k + 1;
    }
    true
}


pub fn chars_of(text: &str) -> (r: Vec<char>)
    ensures
        r@ == text@,
{
    let n = text.unicode_len();
    let mut v: Vec<char> = Vec::new();
    let mut k: usize = 0;
    while k < n
        invariant
            n == text@.len(),
            k <= n,
            v@ == text@.subrange(0, k as int),
        decreases n - k,
    {
        v.push(text.get_char(k));
        k = k + 1;
    }
    assert(v@ =~= text@);
    v
}

fn text_of(s: &Vec<char>, a: usize, b: usize) -> (r: Vec<char>)
    requires
        a <= b <= s.len(),
    ensures
        r@ == s@.subrange(a as int, b as int),
{
    let mut v: Vec<char> = Vec::new();
    let mut k = a;
    while k < b
        invariant
            a <= k <= b <= s.len(),
            v@ =~= s@.subrange(a as int, k as int),
        decreases b - k,
    {
        v.push(s[k]);
        k = k + 1;
    }
    v
}

fn node(rule: Rule, s: &Vec<char>, a: usize, b: usize, inner: Vec<Pair>) -> (p: Pair)
    requires
        a <= b <= s.len(),
    ensures
        p.covers(rule, s@, a as int, b as int),
        p.inner@ == inner@,
{
    Pair { rule, start: a, end: b, text: text_of(s, a, b), inner }
}

fn keyword_text(r: Rule) -> (w: &'static str)
    ensures
        w@ == keyword(r),
{
    match r {
        Rule::next => "next",
        Rule::last => "last",
        Rule::this => "this",
        Rule::today => "today",
        Rule::tomorrow => "tomorrow",
        Rule::yesterday => "yesterday",
        Rule::monday => "monday",
        Rule::tuesday => "tuesday",
        Rule::wednesday => "wednesday",
        Rule::thursday => "thursday",
        Rule::friday => "friday",
        Rule::saturday => "saturday",
        Rule::sunday => "sunday",
        Rule::am => "am",
        Rule::pm => "pm",
        Rule::minute_s => "minute",
        Rule::hour_s => "hour",
        Rule::day_s => "day",
        Rule::week_s => "week",
        Rule::month_s => "month",
        Rule::year_s => "year",
        _ => "",
    }
}

/// The node of keyword rule `r` at `i`, if its keyword stands there.
fn keyword_leaf(s: &Vec<char>, i: usize, r: Rule) -> (p: Option<Pair>)
    requires
        i <= s.len(),
    ensures
        keyword_found(p, if keyword_at(s@, i as int, keyword(r)) { Some(r) } else { None }, s@, i as int),
{
    let w = keyword_text(r);
    if keyword_matches(s, i, w) {
        Some(node(r, s, i, i + w.unicode_len(), Vec::new()))
    } else {
        None
    }
}

/// `p` is the node that a choice of keywords gives, when `found` says which
/// keyword stands at `i`.
pub open spec fn keyword_found(p: Option<Pair>, found: Option<Rule>, s: Seq<char>, i: int) -> bool {
    match found {
        Some(k) => p matches Some(q) && q.covers(k, s, i, keyword_end(s, i, k)) && q.inner@.len()
            == 0,
        None => p is None,
    }
}

fn weekday_leaf(s: &Vec<char>, i: usize) -> (p: Option<Pair>)
    requires
        i <= s.len(),
    ensures
        keyword_found(p, weekday_at(s@, i as int), s@, i as int),
{
    let p = keyword_leaf(s, i, Rule::monday);
    if p.is_some() {
        return p;
    }
    let p = keyword_leaf(s, i, Rule::tuesday);
    if p.is_some() {
        return p;
    }
    let p = keyword_leaf(s, i, Rule::wednesday);
    if p.is_some() {
        return p;
    }
    let p = keyword_leaf(s, i, Rule::thursday);
    if p.is_some() {
        return p;
    }
    let p = keyword_leaf(s, i, Rule::friday);
    if p.is_some() {
        return p;
    }
    let p = keyword_leaf(s, i, Rule::saturday);
    if p.is_some() {
        return p;
    }
    keyword_leaf(s, i, Rule::sunday)
}

fn direction_leaf(s: &Vec<char>, i: usize) -> (p: Option<Pair>)
    requires
        i <= s.len(),
    ensures
        keyword_found(p, direction_at(s@, i as int), s@, i as int),
{
    let p = keyword_leaf(s, i, Rule::next);
    if p.is_some() {
        return p;
    }
    let p = keyword_leaf(s, i, Rule::last);
    if p.is_some() {
        return p;
    }
    keyword_leaf(s, i, Rule::this)
}

fn term_leaf(s: &Vec<char>, i: usize) -> (p: Option<Pair>)
    requires
        i <= s.len(),
    ensures
        keyword_found(p, term_at(s@, i as int), s@, i as int),
{
    let p = keyword_leaf(s, i, Rule::today);
    if p.is_some() {
        return p;
    }
    let p = keyword_leaf(s, i, Rule::tomorrow);
    if p.is_some() {
        return p;
    }
    keyword_leaf(s, i, Rule::yesterday)
}

fn am_pm_leaf(s: &Vec<char>, i: usize) -> (p: Option<Pair>)
    requires
        i <= s.len(),
    ensures
        keyword_found(p, am_pm_at(s@, i as int), s@, i as int),
{
    let p = keyword_leaf(s, i, Rule::am);
    if p.is_some() {
        return p;
    }
    keyword_leaf(s, i, Rule::pm)
}

fn unit_keyword_leaf(s: &Vec<char>, i: usize) -> (p: Option<Pair>)
    requires
        i <= s.len(),
    ensures
        keyword_found(p, unit_at(s@, i as int), s@, i as int),
{
    let p = keyword_leaf(s, i, Rule::minute_s);
    if p.is_some() {
        return p;
    }
    let p = keyword_leaf(s, i, Rule::hour_s);
    if p.is_some() {
        return p;
    }
    let p = keyword_leaf(s, i, Rule::day_s);
    if p.is_some() {
        return p;
    }
    let p = keyword_leaf(s, i, Rule::week_s);
    if p.is_some() {
        return p;
    }
    let p = keyword_leaf(s, i, Rule::month_s);
    if p.is_some() {
        return p;
    }
    keyword_leaf(s, i, Rule::year_s)
}


fn is_digit_char(c: char) -> (r: bool)
    ensures
        r == is_digit(c),
{
    '0' <= c && c <= '9'
}

/// A node of rule `rule` over the span of `leaf`, with `leaf` below it.
fn choice_node(rule: Rule, s: &Vec<char>, leaf: Pair) -> (p: Pair)
    requires
        leaf.start <= leaf.end <= s.len(),
    ensures
        p.covers(rule, s@, leaf.start as int, leaf.end as int),
        p.inner@ == seq![leaf],
{
    let a = leaf.start;
    let b = leaf.end;
    let mut inner: Vec<Pair> = Vec::new();
    inner.push(leaf);
    node(rule, s, a, b, inner)
}

/// End of the keyword that `found` names, placed at `i`.
pub open spec fn keyword_span(s: Seq<char>, i: int, found: Option<Rule>) -> Option<int> {
    match found {
        Some(k) => Some(keyword_end(s, i, k)),
        None => None,
    }
}

/// Where a match failed, and what the grammar expected there.
#[derive(Clone, Copy, Debug)]
pub struct Failure {
    pub position: usize,
    pub expected: &'static str,
}

/// The failure that got further into the input.
fn further(a: Failure, b: Failure) -> Failure {
    if b.position > a.position {
        b
    } else {
        a
    }
}

fn fail(position: usize, expected: &'static str) -> Failure {
    Failure { position, expected }
}

/// `p` is `Ok` exactly when `end` is `Some`, and then covers `s[i..end]`
/// with rule `rule`.
pub open spec fn node_found(p: Result<Pair, Failure>, rule: Rule, s: Seq<char>, i: int, end: Option<int>) -> bool {
    match end {
        Some(e) => p matches Ok(q) && q.covers(rule, s, i, e),
        None => p is Err,
    }
}

pub fn parse_specific_day(s: &Vec<char>, i: usize) -> (p: Result<Pair, Failure>)
    requires
        i <= s.len(),
    ensures
        node_found(p, Rule::specific_day, s@, i as int, keyword_span(s@, i as int, weekday_at(s@, i as int))),
        p matches Ok(q) ==> q.weekday() == weekday_at(s@, i as int),
{
    match weekday_leaf(s, i) {
        Some(w) => Ok(choice_node(Rule::specific_day, s, w)),
        None => Err(fail(i, "a weekday")),
    }
}

pub fn parse_next_or_last(s: &Vec<char>, i: usize) -> (p: Result<Pair, Failure>)
    requires
        i <= s.len(),
    ensures
        node_found(p, Rule::next_or_last, s@, i as int, keyword_span(s@, i as int, direction_at(s@, i as int))),
        p matches Ok(q) ==> q.direction() == direction_at(s@, i as int),
{
    match direction_leaf(s, i) {
        Some(d) => Ok(choice_node(Rule::next_or_last, s, d)),
        None => Err(fail(i, "next, last or this")),
    }
}

pub fn parse_relative_term(s: &Vec<char>, i: usize) -> (p: Result<Pair, Failure>)
    requires
        i <= s.len(),
    ensures
        node_found(p, Rule::relative_term, s@, i as int, keyword_span(s@, i as int, term_at(s@, i as int))),
        p matches Ok(q) ==> q.term() == term_at(s@, i as int),
{
    match term_leaf(s, i) {
        Some(t) => Ok(choice_node(Rule::relative_term, s, t)),
        None => Err(fail(i, "today, tomorrow or yesterday")),
    }
}

pub fn parse_am_pm(s: &Vec<char>, i: usize) -> (p: Result<Pair, Failure>)
    requires
        i <= s.len(),
    ensures
        node_found(p, Rule::am_pm, s@, i as int, keyword_span(s@, i as int, am_pm_at(s@, i as int))),
        p matches Ok(q) ==> q.is_pm() == Some(am_pm_at(s@, i as int) == Some(Rule::pm)),
{
    match am_pm_leaf(s, i) {
        Some(a) => Ok(choice_node(Rule::am_pm, s, a)),
        None => Err(fail(i, "AM or PM")),
    }
}

pub fn parse_hour(s: &Vec<char>, i: usize) -> (p: Result<Pair, Failure>)
    requires
        i <= s.len(),
    ensures
        node_found(p, Rule::hour, s@, i as int, hour_end(s@, i as int)),
        p matches Ok(q) ==> q.small_number(Rule::hour) == Some(digits_value(q.text@)),
{
    if i < s.len() && is_digit_char(s[i]) {
        let e = if s.len() - i > 1 && is_digit_char(s[i + 1]) {
            i + 2
        } else {
            i + 1
        };
        let q = node(Rule::hour, s, i, e, Vec::new());
        assert(all_digits(q.text@));
        Ok(q)
    } else {
        Err(fail(i, "an hour"))
    }
}

pub fn parse_minute(s: &Vec<char>, i: usize) -> (p: Result<Pair, Failure>)
    requires
        i <= s.len(),
    ensures
        node_found(p, Rule::minute, s@, i as int, minute_end(s@, i as int)),
        p matches Ok(q) ==> q.small_number(Rule::minute) == Some(digits_value(q.text@)),
{
    if i < s.len() && s.len() - i > 1 && '0' <= s[i] && s[i] <= '5' && is_digit_char(s[i + 1]) {
        let q = node(Rule::minute, s, i, i + 2, Vec::new());
        assert(all_digits(q.text@));
        Ok(q)
    } else if i < s.len() && is_digit_char(s[i]) {
        let q = node(Rule::minute, s, i, i + 1, Vec::new());
        assert(all_digits(q.text@));
        Ok(q)
    } else {
        Err(fail(i, "a minute"))
    }
}

pub fn parse_number(s: &Vec<char>, i: usize) -> (p: Result<Pair, Failure>)
    requires
        i <= s.len(),
    ensures
        node_found(p, Rule::number, s@, i as int, number_end(s@, i as int)),
        p matches Ok(q) ==> q.text@.len() >= 1 && all_digits(q.text@),
{
    if i < s.len() && is_digit_char(s[i]) {
        let mut j = i;
        while j < s.len() && is_digit_char(s[j])
            invariant
                i <= j <= s.len(),
                digits_end(s@, i as int) == digits_end(s@, j as int),
                forall|k: int| i <= k < j ==> is_digit(#[trigger] s@[k]),
            decreases s.len() - j,
        {
            j = j + 1;
        }
        let q = node(Rule::number, s, i, j, Vec::new());
        assert(all_digits(q.text@));
        Ok(q)
    } else {
        Err(fail(i, "a number"))
    }
}

pub fn parse_specific_time(s: &Vec<char>, i: usize) -> (p: Result<Pair, Failure>)
    requires
        i <= s.len(),
    ensures
        match time_at(s@, i as int) {
            Some((t, e)) => p matches Ok(q) && q.covers(Rule::specific_time, s@, i as int, e)
                && q.time() == Some(t),
            None => p is Err,
        },
{
    let h = match parse_hour(s, i) {
        Ok(h) => h,
        Err(f) => return Err(f),
    };
    let c = space_end(s, h.end);
    if c >= s.len() || s[c] != ':' {
        return Err(fail(c, "\":\""));
    }
    let m0 = space_end(s, c + 1);
    let m = match parse_minute(s, m0) {
        Ok(m) => m,
        Err(f) => return Err(f),
    };
    let a = space_end(s, m.end);
    let ap = match parse_am_pm(s, a) {
        Ok(ap) => ap,
        Err(f) => return Err(f),
    };
    let end = ap.end;
    let mut inner: Vec<Pair> = Vec::new();
    inner.push(h);
    inner.push(m);
    inner.push(ap);
    let q = node(Rule::specific_time, s, i, end, inner);
    assert(q.child(0) == h && q.child(1) == m && q.child(2) == ap);
    Ok(q)
}

pub fn parse_relative_date(s: &Vec<char>, i: usize) -> (p: Result<Pair, Failure>)
    requires
        i <= s.len(),
    ensures
        match relative_date_at(s@, i as int) {
            Some((dw, e)) => p matches Ok(q) && q.covers(Rule::relative_date, s@, i as int, e)
                && q.relative_date() == Some(dw),
            None => p is Err,
        },
{
    let d = match parse_next_or_last(s, i) {
        Ok(d) => d,
        Err(f) => return Err(f),
    };
    let j = space_end(s, d.end);
    let w = match parse_specific_day(s, j) {
        Ok(w) => w,
        Err(f) => return Err(f),
    };
    let end = w.end;
    let mut inner: Vec<Pair> = Vec::new();
    inner.push(d);
    inner.push(w);
    let q = node(Rule::relative_date, s, i, end, inner);
    assert(q.child(0) == d && q.child(1) == w);
    Ok(q)
}

/// `relative_date | relative_term`, the day a `relative_day_and_specific_time` starts from.
fn parse_day_ref(s: &Vec<char>, i: usize) -> (p: Result<Pair, Failure>)
    requires
        i <= s.len(),
    ensures
        match day_ref_at(s@, i as int) {
            Some((r, e)) => p matches Ok(q) && q.start == i && i <= q.end == e <= s.len()
                && q.day_ref() == Some(r),
            None => p is Err,
        },
{
    let f = match parse_relative_date(s, i) {
        Ok(q) => return Ok(q),
        Err(f) => f,
    };
    match parse_relative_term(s, i) {
        Ok(q) => Ok(q),
        Err(g) => Err(further(f, g)),
    }
}

/// `"at" specific_time`, after the spaces that follow `i`.
fn parse_at_time(s: &Vec<char>, i: usize) -> (p: Result<Pair, Failure>)
    requires
        i <= s.len(),
    ensures
        match at_time_after(s@, i as int) {
            Some((t, e)) => p matches Ok(q) && i <= q.end == e <= s.len() && q.time() == Some(t),
            None => p is Err,
        },
{
    let j = space_end(s, i);
    if !keyword_matches(s, j, "at") {
        return Err(fail(j, "\"at\""));
    }
    let k = space_end(s, j + "at".unicode_len());
    parse_specific_time(s, k)
}

pub fn parse_relative_day_and_specific_time(s: &Vec<char>, i: usize) -> (p: Result<Pair, Failure>)
    requires
        i <= s.len(),
    ensures
        match day_ref_and_time_at(s@, i as int) {
            Some((rt, e)) => p matches Ok(q) && q.covers(
                Rule::relative_day_and_specific_time,
                s@,
                i as int,
                e,
            ) && q.day_ref_and_time() == Some(rt),
            None => p is Err,
        },
{
    let r = match parse_day_ref(s, i) {
        Ok(r) => r,
        Err(f) => return Err(f),
    };
    let t = match parse_at_time(s, r.end) {
        Ok(t) => t,
        Err(f) => return Err(f),
    };
    let end = t.end;
    let mut inner: Vec<Pair> = Vec::new();
    inner.push(r);
    inner.push(t);
    let q = node(Rule::relative_day_and_specific_time, s, i, end, inner);
    assert(q.child(0) == r && q.child(1) == t);
    Ok(q)
}

pub fn parse_specific_day_and_time(s: &Vec<char>, i: usize) -> (p: Result<Pair, Failure>)
    requires
        i <= s.len(),
    ensures
        match day_and_time_at(s@, i as int) {
            Some((wt, e)) => p matches Ok(q) && q.covers(Rule::specific_day_and_time, s@, i as int, e)
                && q.day_and_time() == Some(wt),
            None => p is Err,
        },
{
    let w = match parse_specific_day(s, i) {
        Ok(w) => w,
        Err(f) => return Err(f),
    };
    let t = match parse_at_time(s, w.end) {
        Ok(t) => t,
        Err(f) => return Err(f),
    };
    let end = t.end;
    let mut inner: Vec<Pair> = Vec::new();
    inner.push(w);
    inner.push(t);
    let q = node(Rule::specific_day_and_time, s, i, end, inner);
    assert(q.child(0) == w && q.child(1) == t);
    Ok(q)
}

/// A unit word: the singular, then an optional "s".
pub fn parse_unit(s: &Vec<char>, i: usize) -> (p: Result<Pair, Failure>)
    requires
        i <= s.len(),
    ensures
        match unit_at(s@, i as int) {
            Some(u) => p matches Ok(q) && q.covers(u, s@, i as int, unit_end(s@, i as int, u)),
            None => p is Err,
        },
{
    let w = match unit_keyword_leaf(s, i) {
        Some(w) => w,
        None => return Err(fail(i, "a time unit")),
    };
    let e = w.end;
    let end = if e < s.len() && (s[e] == 's' || (s[e] as u32) == ('s' as u32) - 32) {
        e + 1
    } else {
        e
    };
    Ok(node(w.rule, s, i, end, Vec::new()))
}

pub fn parse_future_time(s: &Vec<char>, i: usize) -> (p: Result<Pair, Failure>)
    requires
        i <= s.len(),
    ensures
        match future_at(s@, i as int) {
            Some((nu, e)) => p matches Ok(q) && q.covers(Rule::future_time, s@, i as int, e)
                && q.future() == Some(nu),
            None => p is Err,
        },
{
    if !keyword_matches(s, i, "in") {
        return Err(fail(i, "\"in\""));
    }
    let j = space_end(s, i + "in".unicode_len());
    let n = match parse_number(s, j) {
        Ok(n) => n,
        Err(f) => return Err(f),
    };
    let k = space_end(s, n.end);
    let u = match parse_unit(s, k) {
        Ok(u) => u,
        Err(f) => return Err(f),
    };
    let end = u.end;
    let mut inner: Vec<Pair> = Vec::new();
    inner.push(n);
    inner.push(u);
    let q = node(Rule::future_time, s, i, end, inner);
    assert(q.child(0) == n && q.child(1) == u);
    Ok(q)
}

/// One expression shape at `i`: the first of them that matches. When none
/// does, the failure that got furthest.
fn parse_shape(s: &Vec<char>, i: usize) -> (p: Result<Pair, Failure>)
    requires
        i <= s.len(),
    ensures
        match shape_at(s@, i as int) {
            Some((e, end)) => p matches Ok(q) && q.start == i && i <= q.end == end <= s.len()
                && q.shape() == Some(e),
            None => p is Err,
        },
{
    let f = match parse_relative_day_and_specific_time(s, i) {
        Ok(q) => return Ok(q),
        Err(f) => f,
    };
    let f = match parse_specific_day_and_time(s, i) {
        Ok(q) => return Ok(q),
        Err(g) => further(f, g),
    };
    let f = match parse_relative_date(s, i) {
        Ok(q) => return Ok(q),
        Err(g) => further(f, g),
    };
    let f = match parse_relative_term(s, i) {
        Ok(q) => return Ok(q),
        Err(g) => further(f, g),
    };
    let f = match parse_specific_time(s, i) {
        Ok(q) => return Ok(q),
        Err(g) => further(f, g),
    };
    let f = match parse_specific_day(s, i) {
        Ok(q) => return Ok(q),
        Err(g) => further(f, g),
    };
    match parse_future_time(s, i) {
        Ok(q) => Ok(q),
        Err(g) => Err(further(f, g)),
    }
}

/// The whole input as one `date_expression`: a shape with only spaces
/// before and after it. The node covers the shape, without those spaces.
pub fn parse_date_expression(s: &Vec<char>) -> (p: Result<Pair, Failure>)
    ensures
        match expression_of(s@) {
            Some(e) => p matches Ok(q) && q.covers(
                Rule::date_expression,
                s@,
                expression_start(s@),
                expression_end(s@),
            ) && q.expression() == Some(e),
            None => p is Err,
        },
{
    let i = space_end(s, 0);
    let q = match parse_shape(s, i) {
        Ok(q) => q,
        Err(f) => return Err(f),
    };
    let rest = space_end(s, q.end);
    if rest != s.len() {
        // A shape followed by more input may be the start of a longer shape
        // that failed further on.
        let f = fail(rest, "end of input");
        let f = match parse_relative_day_and_specific_time(s, i) {
            Ok(_) => f,
            Err(g) => further(f, g),
        };
        let f = match parse_specific_day_and_time(s, i) {
            Ok(_) => f,
            Err(g) => further(f, g),
        };
        return Err(f);
    }
    Ok(choice_node(Rule::date_expression, s, q))
}

/// The message of a rejected input starts so; what was expected, and the
/// position where it was expected, follow.
pub open spec fn syntax_message_prefix() -> Seq<char> {
    "Syntax error: expected "@
}

pub open spec fn is_syntax_error<T>(r: Result<T, ParseDateError>) -> bool {
    r matches Err(ParseDateError::ParseError(m)) && syntax_message_prefix().is_prefix_of(m@)
}

fn syntax_error<T>(detail: &str, position: usize) -> (r: Result<T, ParseDateError>)
    ensures
        is_syntax_error(r),
{
    let m = String::from_str("Syntax error: expected ").concat(detail).concat(" at position ");
    let m = m.concat(position.to_string().as_str());
    assert(syntax_message_prefix().is_prefix_of(m@)) by {
        assert(m@.subrange(0, syntax_message_prefix().len() as int) =~= syntax_message_prefix());
    }
    Err(ParseDateError::ParseError(m))
}

/// Does `rule` match at the start of `s` (not necessarily all of it)?
pub open spec fn rule_matches(rule: Rule, s: Seq<char>) -> bool {
    match rule {
        Rule::EOI => s.len() == 0,
        Rule::WHITESPACE => s.len() > 0 && is_space(s[0]),
        Rule::date_expression => expression_of(s) is Some,
        Rule::relative_date => relative_date_at(s, 0) is Some,
        Rule::relative_term => term_at(s, 0) is Some,
        Rule::specific_time => time_at(s, 0) is Some,
        Rule::specific_day => weekday_at(s, 0) is Some,
        Rule::specific_day_and_time => day_and_time_at(s, 0) is Some,
        Rule::relative_day_and_specific_time => day_ref_and_time_at(s, 0) is Some,
        Rule::future_time => future_at(s, 0) is Some,
        Rule::next_or_last => direction_at(s, 0) is Some,
        Rule::am_pm => am_pm_at(s, 0) is Some,
        Rule::hour => hour_end(s, 0) is Some,
        Rule::minute => minute_end(s, 0) is Some,
        Rule::number => number_end(s, 0) is Some,
        Rule::time_unit => unit_at(s, 0) is Some,
        Rule::minute_s | Rule::hour_s | Rule::day_s | Rule::week_s | Rule::month_s | Rule::year_s =>
            unit_at(s, 0) == Some(rule),
        _ => keyword_at(s, 0, keyword(rule)),
    }
}

/// The node that `DateParser::parse` gives for `rule` at the start of `s`:
/// the span that the rule matches, from position 0, and what its node reads
/// as. (`WHITESPACE` gives no node.)
pub open spec fn reads_as(rule: Rule, s: Seq<char>, p: Pair) -> bool {
    match rule {
        Rule::EOI => p.covers(rule, s, 0, 0),
        Rule::date_expression => p.covers(rule, s, expression_start(s), expression_end(s))
            && p.expression() == expression_of(s),
        Rule::relative_date => match relative_date_at(s, 0) {
            Some((dw, e)) => p.covers(rule, s, 0, e) && p.relative_date() == Some(dw),
            None => false,
        },
        Rule::relative_term => match term_at(s, 0) {
            Some(t) => p.covers(rule, s, 0, keyword_end(s, 0, t)) && p.term() == Some(t),
            None => false,
        },
        Rule::specific_time => match time_at(s, 0) {
            Some((t, e)) => p.covers(rule, s, 0, e) && p.time() == Some(t),
            None => false,
        },
        Rule::specific_day => match weekday_at(s, 0) {
            Some(w) => p.covers(rule, s, 0, keyword_end(s, 0, w)) && p.weekday() == Some(w),
            None => false,
        },
        Rule::specific_day_and_time => match day_and_time_at(s, 0) {
            Some((wt, e)) => p.covers(rule, s, 0, e) && p.day_and_time() == Some(wt),
            None => false,
        },
        Rule::relative_day_and_specific_time => match day_ref_and_time_at(s, 0) {
            Some((rt, e)) => p.covers(rule, s, 0, e) && p.day_ref_and_time() == Some(rt),
            None => false,
        },
        Rule::future_time => match future_at(s, 0) {
            Some((nu, e)) => p.covers(rule, s, 0, e) && p.future() == Some(nu),
            None => false,
        },
        Rule::next_or_last => match direction_at(s, 0) {
            Some(d) => p.covers(rule, s, 0, keyword_end(s, 0, d)) && p.direction() == Some(d),
            None => false,
        },
        Rule::am_pm => match am_pm_at(s, 0) {
            Some(a) => p.covers(rule, s, 0, keyword_end(s, 0, a)) && p.is_pm() == Some(a == Rule::pm),
            None => false,
        },
        Rule::hour => match hour_end(s, 0) {
            Some(e) => p.covers(rule, s, 0, e) && p.small_number(rule) == Some(digits_value(s.subrange(0, e))),
            None => false,
        },
        Rule::minute => match minute_end(s, 0) {
            Some(e) => p.covers(rule, s, 0, e) && p.small_number(rule) == Some(digits_value(s.subrange(0, e))),
            None => false,
        },
        Rule::number => match number_end(s, 0) {
            Some(e) => p.covers(rule, s, 0, e) && all_digits(p.text@),
            None => false,
        },
        Rule::time_unit => match unit_at(s, 0) {
            Some(u) => p.covers(rule, s, 0, unit_end(s, 0, u)) && p.choice(rule) == Some(u),
            None => false,
        },
        Rule::minute_s | Rule::hour_s | Rule::day_s | Rule::week_s | Rule::month_s | Rule::year_s =>
            p.covers(rule, s, 0, unit_end(s, 0, rule)),
        Rule::WHITESPACE => true,
        _ => p.covers(rule, s, 0, keyword_end(s, 0, rule)) && p.inner@.len() == 0,
    }
}

/// The parser for the grammar of date expressions.
pub struct DateParser;

impl DateParser {
    /// Matches `rule` at the start of `input`. Every rule gives one node,
    /// but `WHITESPACE`, which gives none. `date_expression` must take the
    /// whole input; the others may leave some of it.
    pub fn parse(rule: Rule, input: &str) -> (r: Result<Vec<Pair>, ParseDateError>)
        ensures
            rule_matches(rule, input@) ==> (r matches Ok(v) && (if rule == Rule::WHITESPACE {
                v@.len() == 0
            } else {
                v@.len() == 1 && v@[0].rule == rule
            })),
            !rule_matches(rule, input@) ==> is_syntax_error(r),
            rule != Rule::WHITESPACE && r is Ok ==> reads_as(rule, input@, r->Ok_0@[0]),
    {
        let s = chars_of(input);
        let found = match rule {
            Rule::EOI => if s.len() == 0 {
                Ok(node(Rule::EOI, &s, 0, 0, Vec::new()))
            } else {
                Err(fail(0, "end of input"))
            },
            Rule::WHITESPACE => {
                if s.len() > 0 && (s[0] == ' ' || s[0] == '\t' || s[0] == '\n' || s[0] == '\r') {
                    return Ok(Vec::new());
                }
                Err(fail(0, "a space"))
            },
            Rule::date_expression => parse_date_expression(&s),
            Rule::relative_date => parse_relative_date(&s, 0),
            Rule::relative_term => parse_relative_term(&s, 0),
            Rule::specific_time => parse_specific_time(&s, 0),
            Rule::specific_day => parse_specific_day(&s, 0),
            Rule::specific_day_and_time => parse_specific_day_and_time(&s, 0),
            Rule::relative_day_and_specific_time => parse_relative_day_and_specific_time(&s, 0),
            Rule::future_time => parse_future_time(&s, 0),
            Rule::next_or_last => parse_next_or_last(&s, 0),
            Rule::am_pm => parse_am_pm(&s, 0),
            Rule::hour => parse_hour(&s, 0),
            Rule::minute => parse_minute(&s, 0),
            Rule::number => parse_number(&s, 0),
            Rule::time_unit => match parse_unit(&s, 0) {
                Ok(u) => Ok(choice_node(Rule::time_unit, &s, u)),
                Err(f) => Err(f),
            },
            Rule::minute_s | Rule::hour_s | Rule::day_s | Rule::week_s | Rule::month_s
            | Rule::year_s => match parse_unit(&s, 0) {
                Ok(u) => if u.rule == rule {
                    Ok(u)
                } else {
                    Err(fail(0, keyword_text(rule)))
                },
                Err(f) => Err(f),
            },
            _ => match keyword_leaf(&s, 0, rule) {
                Some(k) => Ok(k),
                None => Err(fail(0, keyword_text(rule))),
            },
        };
        match found {
            Ok(p) => {
                let mut v: Vec<Pair> = Vec::new();
                v.push(p);
                Ok(v)
            },
            Err(f) => syntax_error(f.expected, f.position),
        }
    }

    /// Parses all of `text` as one date expression.
    pub fn parse_expression(text: &str) -> (r: Result<Pair, ParseDateError>)
        ensures
            match expression_of(text@) {
                Some(e) => r matches Ok(q) && q.covers(
                    Rule::date_expression,
                    text@,
                    expression_start(text@),
                    expression_end(text@),
                ) && q.expression() == Some(e),
                None => is_syntax_error(r),
            },
    {
        let s = chars_of(text);
        match parse_date_expression(&s) {
            Ok(p) => Ok(p),
            Err(f) => syntax_error(f.expected, f.position),
        }
    }
}

} // verus!

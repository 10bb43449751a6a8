//! Properties of the grammar and the resolver, proved over the spec
//! functions that their contracts use.
use vstd::arithmetic::div_mod::lemma_fundamental_div_mod_converse;
use vstd::prelude::*;

use crate::calendar::{
    days_in_month, shifted_month, shifted_year, valid_date, Timestamp, MAX_YEAR, MIN_YEAR,
};
use crate::date_parser::{
    expression_result, month_result, rule_weekday, year_result, same_week_result, weekday_result, weekday_shift,
};
use crate::grammar::{
    digits_end, direction_at, hour_end, keyword, keyword_at, same_letter, term_at, weekday_at,
    DateExpr, expression_end, expression_of, expression_start, future_at, is_digit, is_space,
    is_weekday_rule, shape_at, shape_end, skip_spaces, Rule,
};
use crate::ParseDateError;

verus! {

/// Moving a timestamp by whole days changes only its date, by that many
/// days, whenever the local zone's offset is the same before and after.
pub proof fn law_whole_days_keep_time_of_day(t: Timestamp, u: Timestamp, days: int)
    requires
        t.wf(),
        t.shifted_to(u, days * 86400),
        u.offset == t.offset,
    ensures
        u.day_number() == t.day_number() + days,
        u.seconds_of_day() == t.seconds_of_day(),
{
    assert(u.local_seconds() == (t.day_number() + days) * 86400 + t.seconds_of_day()) by (nonlinear_arith)
        requires
            u.local_seconds() == t.local_seconds() + days * 86400,
            t.local_seconds() == t.day_number() * 86400 + t.seconds_of_day(),
    ;
    lemma_fundamental_div_mod_converse(
        u.local_seconds(),
        86400,
        u.day_number(),
        u.seconds_of_day(),
    );
    lemma_fundamental_div_mod_converse(
        u.local_seconds(),
        86400,
        t.day_number() + days,
        t.seconds_of_day(),
    );
}

/// A bare weekday resolves to a timestamp on that weekday, whenever the
/// local zone has the same offset at the reference and at the result (no
/// change of offset, such as a daylight-saving change, lies between them).
pub proof fn law_same_week_lands_on_weekday(t: Timestamp, w: Rule, u: Timestamp)
    requires
        t.wf(),
        is_weekday_rule(w),
        same_week_result(t, w, Ok(u)),
        u.offset == t.offset,
    ensures
        u.weekday_index() == rule_weekday(w),
{
    let d = rule_weekday(w) - t.weekday_index();
    law_whole_days_keep_time_of_day(t, u, d);
    let x = t.day_number() + 4;
    lemma_fundamental_div_mod_converse(x, 7, x / 7, x % 7);
    lemma_fundamental_div_mod_converse(u.day_number() + 4, 7, x / 7, rule_weekday(w));
}

/// The offset of "this" is never negative and always under a week.
pub proof fn law_this_offset_within_week(current: int, target: int)
    requires
        0 <= current < 7,
        0 <= target < 7,
    ensures
        0 <= weekday_shift(Rule::this, current, target) <= 6,
{
}

/// "last" and the reference's own weekday gives exactly one week earlier,
/// for every reference that is not a Sunday (for a Sunday the offset of
/// "last Sunday" is 0).
pub proof fn law_last_same_weekday_is_week_before(t: Timestamp, r: Result<Timestamp, ParseDateError>)
    requires
        t.wf(),
        t.weekday_index() != 0,
        weekday_result(t, Rule::last, t.weekday_index(), r),
    ensures
        weekday_shift(Rule::last, t.weekday_index(), t.weekday_index()) == -7,
        r matches Ok(u) ==> u.instant() == t.instant() - 7 * 86400,
{
}

proof fn lemma_skip_spaces(s: Seq<char>, i: int)
    requires
        0 <= i <= s.len(),
    ensures
        i <= skip_spaces(s, i) <= s.len(),
        forall|k: int| i <= k < skip_spaces(s, i) ==> is_space(#[trigger] s[k]),
        skip_spaces(s, i) < s.len() ==> !is_space(s[skip_spaces(s, i)]),
    decreases s.len() - i,
{
    if i < s.len() && is_space(s[i]) {
        lemma_skip_spaces(s, i + 1);
    }
}

proof fn lemma_skip_spaces_bounds(s: Seq<char>)
    ensures
        forall|i: int| 0 <= i <= s.len() ==> i <= #[trigger] skip_spaces(s, i) <= s.len(),
{
    assert forall|i: int| 0 <= i <= s.len() implies i <= #[trigger] skip_spaces(s, i) <= s.len() by {
        lemma_skip_spaces(s, i);
    }
}

proof fn lemma_digits_end(s: Seq<char>, i: int)
    requires
        0 <= i <= s.len(),
    ensures
        i <= digits_end(s, i) <= s.len(),
    decreases s.len() - i,
{
    if i < s.len() && is_digit(s[i]) {
        lemma_digits_end(s, i + 1);
    }
}

/// Every shape that matches at `i` ends at or after `i`, within the input.
proof fn lemma_shape_bounds(s: Seq<char>, i: int)
    requires
        0 <= i <= s.len(),
        shape_at(s, i) is Some,
    ensures
        i <= shape_end(s, i) <= s.len(),
{
    lemma_skip_spaces_bounds(s);
    if future_at(s, i) is Some {
        lemma_digits_end(s, skip_spaces(s, i + "in"@.len()));
    }
}

/// An accepted expression covers the whole input but for the spaces around
/// it: only spaces stand before its start and after its end, and it starts
/// on a character that is not a space.
pub proof fn law_expression_covers_trimmed_input(s: Seq<char>)
    requires
        expression_of(s) is Some,
    ensures
        expression_start(s) <= expression_end(s) <= s.len(),
        forall|k: int| 0 <= k < expression_start(s) ==> is_space(#[trigger] s[k]),
        expression_start(s) < s.len() ==> !is_space(s[expression_start(s)]),
        forall|k: int| expression_end(s) <= k < s.len() ==> is_space(#[trigger] s[k]),
{
    lemma_skip_spaces(s, 0);
    lemma_shape_bounds(s, expression_start(s));
    lemma_skip_spaces(s, expression_end(s));
}


/// The keyword `w` does not stand at `i` when its first letter differs.
proof fn lemma_first_letter_differs(s: Seq<char>, i: int, w: Seq<char>)
    requires
        0 <= i < s.len(),
        w.len() > 0,
        !same_letter(s[i], w[0]),
    ensures
        !keyword_at(s, i, w),
{
    if keyword_at(s, i, w) {
        assert(same_letter(s[i + 0], w[0]));
    }
}

/// The keyword `w` does not stand at `i` when its second letter differs.
proof fn lemma_second_letter_differs(s: Seq<char>, i: int, w: Seq<char>)
    requires
        0 <= i,
        i + 1 < s.len(),
        w.len() > 1,
        !same_letter(s[i + 1], w[1]),
    ensures
        !keyword_at(s, i, w),
{
    if keyword_at(s, i, w) {
        assert(same_letter(s[i + 1], w[1]));
    }
}

/// "today" reads as the term today, and resolves to the reference itself,
/// date and time of day unchanged.
pub proof fn law_today_is_reference(reference: Timestamp, r: Result<Timestamp, ParseDateError>)
    requires
        reference.wf(),
    ensures
        expression_of("today"@) == Some(DateExpr::RelativeTerm(Rule::today)),
        expression_result(reference, DateExpr::RelativeTerm(Rule::today), r) ==> r == Ok::<
            Timestamp,
            ParseDateError,
        >(reference),
{
    let s = "today"@;
    reveal_strlit("today");
    reveal_strlit("next");
    reveal_strlit("last");
    reveal_strlit("this");
    reveal_strlit("monday");
    reveal_strlit("tuesday");
    reveal_strlit("wednesday");
    reveal_strlit("thursday");
    reveal_strlit("friday");
    reveal_strlit("saturday");
    reveal_strlit("sunday");
    reveal_strlit("at");
    assert(s.len() == 5);
    assert(skip_spaces(s, 0) == 0);
    assert(skip_spaces(s, 5) == 5);
    lemma_first_letter_differs(s, 0, keyword(Rule::next));
    lemma_first_letter_differs(s, 0, keyword(Rule::last));
    lemma_second_letter_differs(s, 0, keyword(Rule::this));
    lemma_first_letter_differs(s, 0, keyword(Rule::monday));
    lemma_second_letter_differs(s, 0, keyword(Rule::tuesday));
    lemma_first_letter_differs(s, 0, keyword(Rule::wednesday));
    lemma_second_letter_differs(s, 0, keyword(Rule::thursday));
    lemma_first_letter_differs(s, 0, keyword(Rule::friday));
    lemma_first_letter_differs(s, 0, keyword(Rule::saturday));
    lemma_first_letter_differs(s, 0, keyword(Rule::sunday));
    assert(keyword_at(s, 0, keyword(Rule::today)));
    assert(direction_at(s, 0) is None);
    assert(weekday_at(s, 0) is None);
    assert(term_at(s, 0) == Some(Rule::today));
    assert(!keyword_at(s, 5, "at"@));
    assert(hour_end(s, 0) is None);
    assert(!keyword_at(s, 0, "in"@)) by {
        reveal_strlit("in");
        lemma_first_letter_differs(s, 0, "in"@);
    }
}


/// Twelve months on and one year on name the same civil date and time: the
/// target day exists for both or for neither, and when both succeed they
/// hold the same date and time of day.
pub proof fn law_twelve_months_is_one_year(
    t: Timestamp,
    by_months: Result<Timestamp, ParseDateError>,
    by_year: Result<Timestamp, ParseDateError>,
)
    requires
        t.wf(),
        month_result(t, 12, by_months),
        year_result(t, 1, by_year),
    ensures
        shifted_year(t.year as int, t.month as int, 12) == t.year + 1,
        shifted_month(t.year as int, t.month as int, 12) == t.month,
        (MIN_YEAR <= t.year + 1 <= MAX_YEAR && t.day <= days_in_month(t.year + 1, t.month as int))
            <==> valid_date(t.year + 1, t.month as int, t.day as int),
        by_months is Ok && by_year is Ok ==> by_months->Ok_0.same_civil(by_year->Ok_0),
{
    let total = t.year * 12 + (t.month - 1) + 12;
    lemma_fundamental_div_mod_converse(total, 12, t.year + 1, t.month - 1);
    if by_months is Ok && by_year is Ok {
        let u = by_months->Ok_0;
        let w = by_year->Ok_0;
        assert(u.year == w.year && u.month == w.month && u.day == w.day);
    }
}

} // verus!

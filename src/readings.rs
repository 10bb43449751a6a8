//! Reading the nodes of a parse tree back into values: the executable
//! counterparts of the readings that `Pair`'s spec functions define.
use vstd::prelude::*;

use crate::grammar::{all_digits, digit_value, digits_value, is_digit, Pair, Rule};

verus! {

pub fn choice_of(p: &Pair, rule: Rule) -> (r: Option<Rule>)
    ensures
        r == p.choice(rule),
{
    if p.rule == rule && p.inner.len() == 1 {
        Some(p.inner[0].rule)
    } else {
        None
    }
}

pub fn weekday_of(p: &Pair) -> (r: Option<Rule>)
    ensures
        r == p.weekday(),
{
    match choice_of(p, Rule::specific_day) {
        Some(w) => if w == Rule::monday || w == Rule::tuesday || w == Rule::wednesday || w
            == Rule::thursday || w == Rule::friday || w == Rule::saturday || w == Rule::sunday {
            Some(w)
        } else {
            None
        },
        None => None,
    }
}

pub fn direction_of(p: &Pair) -> (r: Option<Rule>)
    ensures
        r == p.direction(),
{
    match choice_of(p, Rule::next_or_last) {
        Some(d) => if d == Rule::next || d == Rule::last || d == Rule::this {
            Some(d)
        } else {
            None
        },
        None => None,
    }
}

pub fn term_of(p: &Pair) -> (r: Option<Rule>)
    ensures
        r == p.term(),
{
    match choice_of(p, Rule::relative_term) {
        Some(t) => if t == Rule::today || t == Rule::tomorrow || t == Rule::yesterday {
            Some(t)
        } else {
            None
        },
        None => None,
    }
}

pub fn is_digits(d: &Vec<char>) -> (r: bool)
    ensures
        r == all_digits(d@),
{
    let mut k: usize = 0;
    while k < d.len()
        invariant
            k <= d.len(),
            forall|q: int| 0 <= q < k ==> is_digit(#[trigger] d@[q]),
        decreases d.len() - k,
    {
        if !('0' <= d[k] && d[k] <= '9') {
            return false;
        }
        k = k + 1;
    }
    true
}

proof fn lemma_digits_step(d: Seq<char>, k: int)
    requires
        0 <= k < d.len(),
    ensures
        digits_value(d.subrange(0, k + 1)) == digits_value(d.subrange(0, k)) * 10 + digit_value(
            d[k],
        ),
{
    assert(d.subrange(0, k + 1).drop_last() =~= d.subrange(0, k));
}

/// A prefix of a numeral has no greater value than the numeral.
proof fn lemma_digits_prefix(d: Seq<char>, k: int)
    requires
        0 <= k <= d.len(),
    ensures
        digits_value(d.subrange(0, k)) <= digits_value(d),
    decreases d.len() - k,
{
    if k < d.len() {
        lemma_digits_prefix(d, k + 1);
        lemma_digits_step(d, k);
    } else {
        assert(d.subrange(0, k) =~= d);
    }
}

/// The value of a numeral, when it fits in an `i32`.
pub fn numeral_value(d: &Vec<char>) -> (r: Option<i32>)
    requires
        all_digits(d@),
    ensures
        r matches Some(n) ==> n >= 0 && n as nat == digits_value(d@),
        r is None ==> digits_value(d@) > i32::MAX,
{
    let mut v: i64 = 0;
    let mut k: usize = 0;
    assert(d@.subrange(0, 0) =~= Seq::<char>::empty());
    while k < d.len()
        invariant
            k <= d.len(),
            all_digits(d@),
            0 <= v <= i32::MAX,
            v as nat == digits_value(d@.subrange(0, k as int)),
        decreases d.len() - k,
    {
        let digit = (d[k] as u32 - '0' as u32) as i64;
        proof {
            lemma_digits_step(d@, k as int);
            assert(is_digit(d@[k as int]));
        }
        let next = v * 10 + digit;
        if next > i32::MAX as i64 {
            proof {
                lemma_digits_prefix(d@, k + 1);
            }
            return None;
        }
        v = next;
        k = k + 1;
    }
    assert(d@.subrange(0, k as int) =~= d@);
    Some(v as i32)
}

/// The value of a `rule` node of one or two digits.
pub fn small_number_of(p: &Pair, rule: Rule) -> (r: Option<u32>)
    ensures
        r matches Some(v) ==> p.small_number(rule) == Some(v as nat),
        r is None ==> p.small_number(rule) is None,
{
    if p.rule == rule && 1 <= p.text.len() && p.text.len() <= 2 && is_digits(&p.text) {
        let t = &p.text;
        assert(is_digit(t@[0]));
        let first = t[0] as u32 - '0' as u32;
        assert(t@.subrange(0, 0) =~= Seq::<char>::empty());
        proof {
            lemma_digits_step(t@, 0);
        }
        if t.len() == 1 {
            assert(t@.subrange(0, 1) =~= t@);
            Some(first)
        } else {
            assert(is_digit(t@[1]));
            let second = t[1] as u32 - '0' as u32;
            proof {
                lemma_digits_step(t@, 1);
            }
            assert(t@.subrange(0, 2) =~= t@);
            Some(first * 10 + second)
        }
    } else {
        None
    }
}


/// Whether an `am_pm` node says PM.
pub fn pm_of(p: &Pair) -> (r: Option<bool>)
    ensures
        r == p.is_pm(),
{
    if p.inner.len() >= 1 && p.inner[0].rule == Rule::pm {
        Some(true)
    } else if p.inner.len() >= 1 && p.inner[0].rule == Rule::am {
        Some(false)
    } else {
        None
    }
}

/// Whether `p` is a `specific_time` node that reads as a time of day.
pub fn has_time(p: &Pair) -> (r: bool)
    ensures
        r == p.time() is Some,
{
    let n = p.inner.len();
    if p.rule != Rule::specific_time || !(n == 2 || n == 3) {
        return false;
    }
    let h = small_number_of(&p.inner[0], Rule::hour);
    let m = if n == 3 {
        small_number_of(&p.inner[1], Rule::minute)
    } else {
        Some(0)
    };
    let a = &p.inner[n - 1];
    h.is_some() && m.is_some() && a.rule == Rule::am_pm && pm_of(a).is_some()
}

} // verus!

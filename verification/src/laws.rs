//! Laws of the stamp-string parser, stated over the field specifications.
//!
//! Each proof function here pins down one guarantee of the parser as a whole:
//! what a fully explicit stamp resolves to, that a bad field degrades alone,
//! what a too-short or non-numeric stamp falls back to, and how the year is
//! inferred from the stamp's shape.

use vstd::prelude::*;

use crate::digits::all_digits;
use crate::digits::digits_val;
use crate::digits::is_digit;
use crate::digits::lemma_digits_val_bound;
use crate::digits::pow10;
use crate::digits::token_num;
use crate::stamp::dot_free_prefix_len;
use crate::stamp::has_seconds_suffix;
use crate::stamp::int_part;
use crate::stamp::lemma_prefix_len_bounds;
use crate::stamp::seconds_suffix;
use crate::stamp::seconds_token;
use crate::stamp::spec_day;
use crate::stamp::spec_hours;
use crate::stamp::spec_minutes;
use crate::stamp::spec_month;
use crate::stamp::spec_seconds;
use crate::stamp::spec_year;
use crate::stamp::year_token_selected;

verus! {

/// A fully explicit stamp `YYYYMMDDhhmm[.ss]` — twelve digits, every field
/// in range — resolves each field to exactly the number written at its
/// position, whatever the current year happens to be.
pub proof fn law_explicit_stamp_exact(s: Seq<char>, now_year: i32)
    requires
        int_part(s).len() == 12,
        all_digits(int_part(s)),
        digits_val(int_part(s).subrange(4, 6)) <= 12,
        digits_val(int_part(s).subrange(6, 8)) <= 31,
        digits_val(int_part(s).subrange(8, 10)) <= 23,
        digits_val(int_part(s).subrange(10, 12)) <= 59,
    ensures
        spec_year(s, now_year) as int == digits_val(int_part(s).subrange(0, 4)),
        spec_month(s) as int == digits_val(int_part(s).subrange(4, 6)),
        spec_day(s) as int == digits_val(int_part(s).subrange(6, 8)),
        spec_hours(s) as int == digits_val(int_part(s).subrange(8, 10)),
        spec_minutes(s) as int == digits_val(int_part(s).subrange(10, 12)),
        has_seconds_suffix(s) && seconds_suffix(s).len() == 2 && all_digits(seconds_suffix(s))
            && digits_val(seconds_suffix(s)) <= 59 ==> spec_seconds(s) as int == digits_val(
            seconds_suffix(s),
        ),
{
    let ip = int_part(s);
    assert forall|a: int, b: int| 0 <= a <= b <= ip.len() implies all_digits(
        ip.subrange(a, b),
    ) by {
        assert(forall|i: int| 0 <= i < b - a ==> ip.subrange(a, b)[i] == ip[a + i]);
    }
    assert(ip.take(4) =~= ip.subrange(0, 4));
    lemma_digits_val_bound(ip.subrange(0, 4));
    reveal_with_fuel(pow10, 6);
    assert(pow10(4) == 10000);
    lemma_digits_val_bound(ip.subrange(4, 6));
    lemma_digits_val_bound(ip.subrange(6, 8));
    lemma_digits_val_bound(ip.subrange(8, 10));
    lemma_digits_val_bound(ip.subrange(10, 12));
    if has_seconds_suffix(s) && seconds_suffix(s).len() == 2 && all_digits(seconds_suffix(s))
        && digits_val(seconds_suffix(s)) <= 59 {
        assert(seconds_token(s) =~= seconds_suffix(s));
        lemma_digits_val_bound(seconds_suffix(s));
    }
}

/// A field whose window holds a number beyond its range falls back to that
/// field's own default, and to nothing else.
pub proof fn law_out_of_range_field_defaults(s: Seq<char>)
    ensures
        has_seconds_suffix(s) && (token_num(seconds_token(s)) matches Some(v) && v > 59)
            ==> spec_seconds(s) == 0,
        int_part(s).len() >= 2 && (token_num(
            int_part(s).subrange(int_part(s).len() - 2, int_part(s).len() as int),
        ) matches Some(v) && v > 59) ==> spec_minutes(s) == 0,
        int_part(s).len() >= 8 && (token_num(
            int_part(s).subrange(int_part(s).len() - 4, int_part(s).len() - 2),
        ) matches Some(v) && v > 23) ==> spec_hours(s) == 0,
        int_part(s).len() >= 8 && (token_num(
            int_part(s).subrange(int_part(s).len() - 6, int_part(s).len() - 4),
        ) matches Some(v) && v > 31) ==> spec_day(s) == 1,
        int_part(s).len() >= 8 && (token_num(
            int_part(s).subrange(int_part(s).len() - 8, int_part(s).len() - 6),
        ) matches Some(v) && v > 12) ==> spec_month(s) == 1,
{
}

/// The calendar fields of the integer part never read the seconds suffix:
/// two stamps with the same integer part agree on all of them.
pub proof fn law_calendar_fields_ignore_suffix(s1: Seq<char>, s2: Seq<char>)
    requires
        int_part(s1) == int_part(s2),
    ensures
        spec_minutes(s1) == spec_minutes(s2),
        spec_hours(s1) == spec_hours(s2),
        spec_day(s1) == spec_day(s2),
        spec_month(s1) == spec_month(s2),
{
}

/// The seconds field never reads the integer part: two stamps with the same
/// suffix agree on it.
pub proof fn law_seconds_ignore_integer_part(s1: Seq<char>, s2: Seq<char>)
    requires
        has_seconds_suffix(s1) == has_seconds_suffix(s2),
        has_seconds_suffix(s1) ==> seconds_suffix(s1) == seconds_suffix(s2),
    ensures
        spec_seconds(s1) == spec_seconds(s2),
{
}

/// An integer part shorter than eight characters leaves hour, day and month
/// at their defaults, whatever it holds.
pub proof fn law_short_integer_part_defaults(s: Seq<char>)
    requires
        int_part(s).len() < 8,
    ensures
        spec_hours(s) == 0,
        spec_day(s) == 1,
        spec_month(s) == 1,
{
}

/// Year inference: a ten-character integer part starting `99` reads as 2099,
/// and a stamp whose shape selects no year token takes the current year.
pub proof fn law_year_inference(s: Seq<char>, now_year: i32)
    ensures
        int_part(s).len() == 10 && int_part(s)[0] == '9' && int_part(s)[1] == '9' ==> spec_year(
            s,
            now_year,
        ) == 2099,
        !year_token_selected(s) ==> spec_year(s, now_year) == now_year,
{
    let ip = int_part(s);
    if ip.len() == 10 && ip[0] == '9' && ip[1] == '9' {
        let tok = ip.take(2);
        let t9: Seq<char> = seq!['9'];
        assert(tok =~= seq!['9', '9']);
        assert(tok.last() == '9');
        assert(tok.drop_last() =~= t9);
        assert(t9.last() == '9');
        assert(t9.drop_last() =~= Seq::<char>::empty());
        assert(digits_val(Seq::<char>::empty()) == 0);
        assert(digits_val(t9) == 9);
        assert(digits_val(tok) == 99);
    }
}

/// A stamp without a single digit in it is never an error: every field takes
/// its default, and the year is the current one unless the stamp's shape
/// selects a year token, which then reads as 0 — or as 2000 where the
/// two-digit rule adds the century.
pub proof fn law_non_numeric_defaults(s: Seq<char>, now_year: i32)
    requires
        forall|i: int| 0 <= i < s.len() ==> !is_digit(s[i]),
    ensures
        spec_seconds(s) == 0,
        spec_minutes(s) == 0,
        spec_hours(s) == 0,
        spec_day(s) == 1,
        spec_month(s) == 1,
        !year_token_selected(s) ==> spec_year(s, now_year) == now_year,
        year_token_selected(s) && int_part(s).len() == 10 ==> spec_year(s, now_year) == 2000,
        year_token_selected(s) && int_part(s).len() != 10 ==> spec_year(s, now_year) == 0,
{
    let ip = int_part(s);
    lemma_prefix_len_bounds(s);
    assert(forall|i: int| 0 <= i < ip.len() ==> ip[i] == s[i] && !is_digit(ip[i]));
    if has_seconds_suffix(s) {
        let d = dot_free_prefix_len(s);
        let rest = s.skip(d + 1);
        lemma_prefix_len_bounds(rest);
        let t = seconds_suffix(s);
        assert(forall|i: int| 0 <= i < t.len() ==> t[i] == s[d + 1 + i] && !is_digit(t[i]));
        let tok = seconds_token(s);
        if t.len() >= 1 {
            assert(!is_digit(tok[0]));
        }
        assert(token_num(tok) is None);
    }
    if ip.len() >= 2 {
        assert(!is_digit(ip.subrange(ip.len() - 2, ip.len() as int)[0]));
    }
    if ip.len() >= 8 {
        assert(!is_digit(ip.subrange(ip.len() - 4, ip.len() - 2)[0]));
        assert(!is_digit(ip.subrange(ip.len() - 6, ip.len() - 4)[0]));
        assert(!is_digit(ip.subrange(ip.len() - 8, ip.len() - 6)[0]));
    }
    if year_token_selected(s) {
        let l: int = if ip.len() == 10 {
            2
        } else {
            4
        };
        let tok = ip.take(
            if l <= ip.len() {
                l
            } else {
                ip.len() as int
            },
        );
        if tok.len() >= 1 {
            assert(!is_digit(tok[0]));
        }
        assert(token_num(tok) is None);
    }
}

} // verus!

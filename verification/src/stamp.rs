//! Stamp-string fields: cutting `[[CC]YY]MMDDhhmm[.ss]` into its six fields.
//!
//! A stamp string is split at its first `.` into an integer part and an
//! optional seconds suffix (text up to the next `.`, if any).  Each calendar
//! field is a fixed window of characters counted from the end of the integer
//! part; a window that is missing, non-numeric, or out of range falls back to
//! that field's own default.  No input is ever rejected.

use vstd::prelude::*;
use vstd::string::StrSliceExecFns;

use crate::digits::chars_to_num;
use crate::digits::lemma_digits_val_bound;
use crate::digits::lemma_pow10_monotone;
use crate::digits::pow10;
use crate::digits::token_num;

verus! {

/// Number of characters before the first `.` (the whole string when it has
/// no dot).
pub open spec fn dot_free_prefix_len(s: Seq<char>) -> int
    decreases s.len(),
{
    if s.len() == 0 {
        0
    } else if s[0] == '.' {
        0
    } else {
        1 + dot_free_prefix_len(s.drop_first())
    }
}

/// The integer part of a stamp: everything before the first `.`.
pub open spec fn int_part(s: Seq<char>) -> Seq<char> {
    s.take(dot_free_prefix_len(s))
}

/// Whether the stamp carries a seconds suffix, i.e. holds a `.` at all.
pub open spec fn has_seconds_suffix(s: Seq<char>) -> bool {
    dot_free_prefix_len(s) < s.len()
}

/// The seconds suffix: the text between the first `.` and the next `.` or
/// the end of the stamp.
pub open spec fn seconds_suffix(s: Seq<char>) -> Seq<char> {
    let rest = s.skip(dot_free_prefix_len(s) + 1);
    rest.take(dot_free_prefix_len(rest))
}

/// The prefix length never leaves the string.
pub proof fn lemma_prefix_len_bounds(s: Seq<char>)
    ensures
        0 <= dot_free_prefix_len(s) <= s.len(),
    decreases s.len(),
{
    if s.len() > 0 && s[0] != '.' {
        lemma_prefix_len_bounds(s.drop_first());
    }
}

/// The prefix length is exactly the position of the first `.`, or the whole
/// length when there is none.
pub proof fn lemma_prefix_len_at(s: Seq<char>, i: int)
    requires
        0 <= i <= s.len(),
        forall|j: int| 0 <= j < i ==> s[j] != '.',
        i == s.len() || s[i] == '.',
    ensures
        dot_free_prefix_len(s) == i,
    decreases s.len(),
{
    if s.len() == 0 {
    } else if s[0] == '.' {
        assert(i == 0);
    } else {
        let rest = s.drop_first();
        assert(forall|j: int| 0 <= j < i - 1 ==> rest[j] == s[j + 1] && s[j + 1] != '.');
        lemma_prefix_len_at(rest, i - 1);
    }
}

/// Splits a stamp into the characters of its integer part and, when a `.` is
/// present, those of its seconds suffix.
fn split_parts(s: &str) -> (r: (Vec<char>, Option<Vec<char>>))
    ensures
        r.0@ == int_part(s@),
        r.1 is Some <==> has_seconds_suffix(s@),
        r.1 is Some ==> r.1->0@ == seconds_suffix(s@),
{
    let n = s.unicode_len();
    let mut ip: Vec<char> = Vec::new();
    let mut i: usize = 0;
    loop
        invariant
            i <= n,
            n == s@.len(),
            ip@ == s@.take(i as int),
            forall|j: int| 0 <= j < i ==> s@[j] != '.',
        ensures
            i <= n,
            ip@ == s@.take(i as int),
            forall|j: int| 0 <= j < i ==> s@[j] != '.',
            i == n || s@[i as int] == '.',
        decreases n - i,
    {
        if i == n {
            break;
        }
        let c = s.get_char(i);
        if c == '.' {
            break;
        }
        proof {
            assert(s@.take(i + 1) =~= s@.take(i as int).push(c));
        }
        ip.push(c);
        i = i + 1;
    }
    proof {
        lemma_prefix_len_at(s@, i as int);
    }
    if i == n {
        return (ip, None);
    }
    let mut sfx: Vec<char> = Vec::new();
    let mut k: usize = i + 1;
    loop
        invariant
            i < n,
            i + 1 <= k <= n,
            n == s@.len(),
            sfx@ == s@.subrange(i + 1, k as int),
            forall|j: int| i + 1 <= j < k ==> s@[j] != '.',
        ensures
            i + 1 <= k <= n,
            sfx@ == s@.subrange(i + 1, k as int),
            forall|j: int| i + 1 <= j < k ==> s@[j] != '.',
            k == n || s@[k as int] == '.',
        decreases n - k,
    {
        if k == n {
            break;
        }
        let c = s.get_char(k);
        if c == '.' {
            break;
        }
        proof {
            assert(s@.subrange(i + 1, k + 1) =~= s@.subrange(i + 1, k as int).push(c));
        }
        sfx.push(c);
        k = k + 1;
    }
    proof {
        let rest = s@.skip(i + 1);
        assert(forall|j: int| 0 <= j < k - i - 1 ==> rest[j] == s@[j + i + 1] && s@[j + i + 1]
            != '.');
        lemma_prefix_len_at(rest, k - i - 1);
        assert(sfx@ =~= rest.take(k - i - 1));
    }
    (ip, Some(sfx))
}

/// Value of a field window: the number it holds, unless the window is
/// missing a digit or the number exceeds `max`, in which case the field's
/// default `dflt`.
pub open spec fn field_value(tok: Seq<char>, max: int, dflt: u32) -> u32 {
    match token_num(tok) {
        Some(v) => if v > max {
            dflt
        } else {
            v as u32
        },
        None => dflt,
    }
}

/// A field value never exceeds its range bound, as long as the default sits
/// inside the range.
pub proof fn lemma_field_value_bound(tok: Seq<char>, max: int, dflt: u32)
    requires
        dflt <= max <= u32::MAX,
    ensures
        field_value(tok, max, dflt) <= max,
{
    if token_num(tok) is Some {
        lemma_digits_val_bound(tok);
    }
}

/// Every field of a parsed stamp sits below its range bound.
pub proof fn lemma_fields_in_range(s: Seq<char>)
    ensures
        spec_seconds(s) <= 59,
        spec_minutes(s) <= 59,
        spec_hours(s) <= 23,
        spec_day(s) <= 31,
        spec_month(s) <= 12,
{
    if has_seconds_suffix(s) {
        lemma_field_value_bound(seconds_token(s), 59, 0);
    }
    let ip = int_part(s);
    if ip.len() >= 2 {
        lemma_field_value_bound(ip.subrange(ip.len() - 2, ip.len() as int), 59, 0);
    }
    if ip.len() >= 8 {
        lemma_field_value_bound(ip.subrange(ip.len() - 4, ip.len() - 2), 23, 0);
        lemma_field_value_bound(ip.subrange(ip.len() - 6, ip.len() - 4), 31, 1);
        lemma_field_value_bound(ip.subrange(ip.len() - 8, ip.len() - 6), 12, 1);
    }
}

/// The window the seconds field is read from: the first two characters of
/// the suffix, a lone digit padded with a trailing `0`.
pub open spec fn seconds_token(s: Seq<char>) -> Seq<char> {
    let t = seconds_suffix(s);
    if t.len() == 1 {
        t.push('0')
    } else if t.len() >= 2 {
        t.subrange(0, 2)
    } else {
        t
    }
}

/// Seconds field: the seconds window of the suffix; absent suffix, failed
/// parse or a value over 59 all give 0.
pub open spec fn spec_seconds(s: Seq<char>) -> u32 {
    if has_seconds_suffix(s) {
        field_value(seconds_token(s), 59, 0)
    } else {
        0
    }
}

/// Minutes field: the last two characters of the integer part; a shorter
/// integer part, a failed parse or a value over 59 all give 0.
pub open spec fn spec_minutes(s: Seq<char>) -> u32 {
    let ip = int_part(s);
    if ip.len() >= 2 {
        field_value(ip.subrange(ip.len() - 2, ip.len() as int), 59, 0)
    } else {
        0
    }
}

/// Hours field: the two characters before the minutes, present only when the
/// integer part has at least 8 characters; otherwise, on a failed parse, or
/// over 23, the field is 0.
pub open spec fn spec_hours(s: Seq<char>) -> u32 {
    let ip = int_part(s);
    if ip.len() < 8 {
        0
    } else {
        field_value(ip.subrange(ip.len() - 4, ip.len() - 2), 23, 0)
    }
}

/// Day field: the two characters before the hours, present only when the
/// integer part has at least 8 characters; otherwise, on a failed parse, or
/// over 31, the field is 1.
pub open spec fn spec_day(s: Seq<char>) -> u32 {
    let ip = int_part(s);
    if ip.len() < 8 {
        1
    } else {
        field_value(ip.subrange(ip.len() - 6, ip.len() - 4), 31, 1)
    }
}

/// Month field: the two characters before the day, present only when the
/// integer part has at least 8 characters; otherwise, on a failed parse, or
/// over 12, the field is 1.
pub open spec fn spec_month(s: Seq<char>) -> u32 {
    let ip = int_part(s);
    if ip.len() < 8 {
        1
    } else {
        field_value(ip.subrange(ip.len() - 8, ip.len() - 6), 12, 1)
    }
}

/// Whether the stamp's shape selects an explicit year token: an integer part
/// of 12 or 10 characters, or a whole stamp of 13 or 15 characters.
pub open spec fn year_token_selected(s: Seq<char>) -> bool {
    ||| int_part(s).len() == 12
    ||| int_part(s).len() == 10
    ||| s.len() == 13
    ||| s.len() == 15
}

/// Year read from an explicit year token: the leading four characters of the
/// integer part (two, read as `2000 + value`, when the integer part has 10
/// characters); a failed parse counts as 0.
pub open spec fn year_token_value(s: Seq<char>) -> i32 {
    let ip = int_part(s);
    let l: int = if ip.len() == 10 {
        2
    } else {
        4
    };
    let tok = ip.take(if l <= ip.len() {
        l
    } else {
        ip.len() as int
    });
    let v: int = match token_num(tok) {
        Some(v) => v,
        None => 0,
    };
    if ip.len() == 10 {
        (v + 2000) as i32
    } else {
        v as i32
    }
}

/// Year field: the explicit year token when the stamp's shape selects one,
/// and the current calendar year otherwise.
pub open spec fn spec_year(s: Seq<char>, now_year: i32) -> i32 {
    if year_token_selected(s) {
        year_token_value(s)
    } else {
        now_year
    }
}

/// Reads the window `v[from..to]` as a field value, falling back to `dflt`
/// on a failed parse or a value over `max`.
fn field_from_window(v: &Vec<char>, from: usize, to: usize, max: u32, dflt: u32) -> (r: u32)
    requires
        from <= to <= v.len(),
        to - from <= 8,
    ensures
        r == field_value(v@.subrange(from as int, to as int), max as int, dflt),
{
    match chars_to_num(v, from, to) {
        Some(n) => if n > max {
            dflt
        } else {
            n
        },
        None => dflt,
    }
}

/// Seconds of a stamp string, with 0 for a missing, malformed or
/// out-of-range field.
pub fn parse_seconds(stamp: &String) -> (r: u32)
    ensures
        r == spec_seconds(stamp@),
{
    let (_ip, sfx) = split_parts(stamp.as_str());
    match sfx {
        None => 0,
        Some(t) => {
            if t.len() == 1 {
                let mut padded = t;
                padded.push('0');
                proof {
                    assert(padded@.subrange(0, 2) =~= seconds_suffix(stamp@).push('0'));
                }
                field_from_window(&padded, 0, 2, 59, 0)
            } else if t.len() >= 2 {
                field_from_window(&t, 0, 2, 59, 0)
            } else {
                0
            }
        },
    }
}

/// Minutes of a stamp string, with 0 for a missing, malformed or
/// out-of-range field.
pub fn parse_minutes(stamp: &String) -> (r: u32)
    ensures
        r == spec_minutes(stamp@),
{
    let (ip, _sfx) = split_parts(stamp.as_str());
    if ip.len() >= 2 {
        field_from_window(&ip, ip.len() - 2, ip.len(), 59, 0)
    } else {
        0
    }
}

/// Hours of a stamp string, with 0 for a missing, malformed or out-of-range
/// field.
pub fn parse_hours(stamp: &String) -> (r: u32)
    ensures
        r == spec_hours(stamp@),
{
    let (ip, _sfx) = split_parts(stamp.as_str());
    if ip.len() < 8 {
        0
    } else {
        field_from_window(&ip, ip.len() - 4, ip.len() - 2, 23, 0)
    }
}

/// Day of a stamp string, with 1 for a missing, malformed or out-of-range
/// field.
pub fn parse_day(stamp: &String) -> (r: u32)
    ensures
        r == spec_day(stamp@),
{
    let (ip, _sfx) = split_parts(stamp.as_str());
    if ip.len() < 8 {
        1
    } else {
        field_from_window(&ip, ip.len() - 6, ip.len() - 4, 31, 1)
    }
}

/// Month of a stamp string, with 1 for a missing, malformed or out-of-range
/// field.
pub fn parse_month(stamp: &String) -> (r: u32)
    ensures
        r == spec_month(stamp@),
{
    let (ip, _sfx) = split_parts(stamp.as_str());
    if ip.len() < 8 {
        1
    } else {
        field_from_window(&ip, ip.len() - 8, ip.len() - 6, 12, 1)
    }
}

/// Year of a stamp string against an injected current calendar year: the
/// explicit year token when the stamp's shape selects one, `now_year`
/// otherwise.
pub fn parse_year_in(stamp: &String, now_year: i32) -> (r: i32)
    ensures
        r == spec_year(stamp@, now_year),
{
    let s = stamp.as_str();
    let n = s.unicode_len();
    let (ip, _sfx) = split_parts(s);
    if ip.len() == 12 || ip.len() == 10 || n == 13 || n == 15 {
        let l: usize = if ip.len() == 10 {
            2
        } else {
            4
        };
        let end = if l <= ip.len() {
            l
        } else {
            ip.len()
        };
        let v: u32 = match chars_to_num(&ip, 0, end) {
            Some(x) => x,
            None => 0,
        };
        proof {
            assert(ip@.subrange(0, end as int) =~= int_part(stamp@).take(end as int));
            lemma_pow10_monotone(end as nat, 4);
            reveal_with_fuel(pow10, 6);
            assert(pow10(4) == 10000);
        }
        if ip.len() == 10 {
            (v + 2000) as i32
        } else {
            v as i32
        }
    } else {
        now_year
    }
}

/// The six calendar fields a stamp string resolves to.
#[derive(Clone, Copy, Debug, PartialEq, Eq, Structural)]
pub struct StampFields {
    pub year: i32,
    pub month: u32,
    pub day: u32,
    pub hour: u32,
    pub minute: u32,
    pub second: u32,
}

impl StampFields {
    /// Whether every field sits below the bound the parser guarantees: the
    /// parser never hands out anything larger.  A field of zero can still
    /// come out of a window such as `00`, which no range check rejects.
    pub open spec fn wf(self) -> bool {
        &&& self.month <= 12
        &&& self.day <= 31
        &&& self.hour <= 23
        &&& self.minute <= 59
        &&& self.second <= 59
    }
}

/// All six fields of a stamp string at once, against an injected current
/// calendar year.
pub fn stamp_fields(stamp: &String, now_year: i32) -> (f: StampFields)
    ensures
        f.year == spec_year(stamp@, now_year),
        f.month == spec_month(stamp@),
        f.day == spec_day(stamp@),
        f.hour == spec_hours(stamp@),
        f.minute == spec_minutes(stamp@),
        f.second == spec_seconds(stamp@),
        f.wf(),
{
    proof {
        lemma_fields_in_range(stamp@);
    }
    StampFields {
        year: parse_year_in(stamp, now_year),
        month: parse_month(stamp),
        day: parse_day(stamp),
        hour: parse_hours(stamp),
        minute: parse_minutes(stamp),
        second: parse_seconds(stamp),
    }
}

} // verus!


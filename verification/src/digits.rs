//! Decimal-digit tokens: what a run of characters is worth as a number.
//!
//! Every field of a stamp string is cut out as a short character window and
//! then read as a decimal number; a window that is empty or holds any
//! non-digit character has no value at all.

use vstd::prelude::*;

verus! {

/// Whether a character is a decimal digit.
pub open spec fn is_digit(c: char) -> bool {
    '0' <= c && c <= '9'
}

/// Numeric value of a decimal digit character.
pub open spec fn digit_val(c: char) -> int {
    c as int - '0' as int
}

/// Whether every character of the window is a decimal digit.
pub open spec fn all_digits(s: Seq<char>) -> bool {
    forall|i: int| 0 <= i < s.len() ==> is_digit(s[i])
}

/// Value of a window of digit characters, most significant first.
pub open spec fn digits_val(s: Seq<char>) -> int
    decreases s.len(),
{
    if s.len() == 0 {
        0
    } else {
        digits_val(s.drop_last()) * 10 + digit_val(s.last())
    }
}

/// The number a window stands for: defined only when the window is
/// non-empty and all digits.
pub open spec fn token_num(s: Seq<char>) -> Option<int> {
    if s.len() > 0 && all_digits(s) {
        Some(digits_val(s))
    } else {
        None
    }
}

/// Ten to the given power.
pub open spec fn pow10(n: nat) -> int
    decreases n,
{
    if n == 0 {
        1
    } else {
        10 * pow10((n - 1) as nat)
    }
}

/// Ten to any power is at least one.
pub proof fn lemma_pow10_pos(n: nat)
    ensures
        pow10(n) >= 1,
    decreases n,
{
    if n > 0 {
        lemma_pow10_pos((n - 1) as nat);
    }
}

/// Ten to the power grows with the exponent.
pub proof fn lemma_pow10_monotone(a: nat, b: nat)
    requires
        a <= b,
    ensures
        pow10(a) <= pow10(b),
    decreases b,
{
    if a < b {
        lemma_pow10_monotone(a, (b - 1) as nat);
        lemma_pow10_pos((b - 1) as nat);
    }
}

/// A window of `n` digits is worth less than ten to the `n`.
pub proof fn lemma_digits_val_bound(s: Seq<char>)
    requires
        all_digits(s),
    ensures
        0 <= digits_val(s) < pow10(s.len()),
    decreases s.len(),
{
    if s.len() > 0 {
        lemma_digits_val_bound(s.drop_last());
    }
}

/// Reads the digit window `v[from..to]` as a decimal number; `None` when the
/// window is empty or holds a non-digit.
pub fn chars_to_num(v: &Vec<char>, from: usize, to: usize) -> (r: Option<u32>)
    requires
        from <= to <= v.len(),
        to - from <= 8,
    ensures
        r is Some <==> token_num(v@.subrange(from as int, to as int)) is Some,
        r is Some ==> r->0 as int == token_num(v@.subrange(from as int, to as int))->0,
        r is Some ==> r->0 < pow10((to - from) as nat),
{
    if from == to {
        return None;
    }
    let mut acc: u32 = 0;
    let mut i: usize = from;
    while i < to
        invariant
            from <= i <= to <= v.len(),
            to - from <= 8,
            all_digits(v@.subrange(from as int, i as int)),
            acc as int == digits_val(v@.subrange(from as int, i as int)),
            acc < pow10((i - from) as nat),
        decreases to - i,
    {
        let c = v[i];
        if c < '0' || c > '9' {
            proof {
                let w = v@.subrange(from as int, to as int);
                assert(!is_digit(w[i - from]));
            }
            return None;
        }
        let d: u32 = c as u32 - '0' as u32;
        proof {
            let p = v@.subrange(from as int, i as int);
            let q = v@.subrange(from as int, i + 1);
            assert(q.drop_last() =~= p);
            assert(q.last() == v@[i as int]);
            assert(d as int == digit_val(v@[i as int]));
            lemma_pow10_monotone((i - from) as nat, 7);
            reveal_with_fuel(pow10, 9);
            assert(pow10(7) == 10000000);
            assert(acc * 10 <= (pow10((i - from) as nat) - 1) * 10);
        }
        acc = acc * 10 + d;
        i = i + 1;
    }
    proof {
        assert(v@.subrange(from as int, i as int) =~= v@.subrange(from as int, to as int));
    }
    Some(acc)
}

} // verus!

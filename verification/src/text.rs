//! Reading decimal numbers out of text.

use vstd::prelude::*;

verus! {

/// Whether `c` is one of the ten ASCII decimal digits.
pub open spec fn is_digit(c: char) -> bool {
    '0' <= c && c <= '9'
}

/// The number that the digit `c` stands for.
pub open spec fn digit_value(c: char) -> int {
    c as int - '0' as int
}

/// Whether every character of `s` is a decimal digit.
pub open spec fn all_digits(s: Seq<char>) -> bool {
    forall|i: int| 0 <= i < s.len() ==> is_digit(#[trigger] s[i])
}

/// The number that a run of digits denotes, read as decimal, most
/// significant digit first. The empty run denotes zero.
pub open spec fn decimal_value(s: Seq<char>) -> int
    decreases s.len(),
{
    if s.len() == 0 {
        0
    } else {
        10 * decimal_value(s.drop_last()) + digit_value(s.last())
    }
}

/// The characters of a string slice, one by one.
pub fn chars_of(s: &str) -> (chars: Vec<char>)
    ensures
        chars@ == s@,
{
    let n: usize = s.unicode_len();
    let mut chars: Vec<char> = Vec::new();
    let mut i: usize = 0;
    while i < n
        invariant
            n == s@.len(),
            i <= n,
            chars@ == s@.subrange(0, i as int),
        decreases n - i,
    {
        chars.push(s.get_char(i));
        i = i + 1;
    }
    chars
}

/// Tells whether `c` is a decimal digit.
pub fn char_is_digit(c: char) -> (yes: bool)
    ensures
        yes == is_digit(c),
{
    c >= '0' && c <= '9'
}

/// The value of the digit `c`.
pub fn char_digit(c: char) -> (value: u8)
    requires
        is_digit(c),
    ensures
        value == digit_value(c),
        value <= 9,
{
    (c as u32 - '0' as u32) as u8
}

/// What a non-empty run of digits denotes, provided that it is at most
/// `limit`; `None` for anything else.
pub open spec fn bounded_decimal(s: Seq<char>, limit: int) -> Option<int> {
    if s.len() > 0 && all_digits(s) && decimal_value(s) <= limit {
        Some(decimal_value(s))
    } else {
        None
    }
}

/// Reading more digits never makes the number smaller.
pub proof fn lemma_decimal_value_grows(s: Seq<char>, i: int)
    requires
        all_digits(s),
        0 <= i <= s.len(),
    ensures
        0 <= decimal_value(s.subrange(0, i)) <= decimal_value(s),
    decreases s.len(),
{
    if s.len() == 0 {
        assert(s.subrange(0, i) =~= s);
    } else if i == s.len() {
        assert(s.subrange(0, i) =~= s);
        lemma_decimal_value_grows(s.drop_last(), i - 1);
    } else {
        assert(s.drop_last().subrange(0, i) =~= s.subrange(0, i));
        lemma_decimal_value_grows(s.drop_last(), i);
    }
}

/// Reads `chars[from..to]` as a decimal number that must not exceed `limit`.
pub fn parse_decimal(chars: &Vec<char>, from: usize, to: usize, limit: u32) -> (number: Option<u32>)
    requires
        from <= to <= chars.len(),
        limit <= 400_000_000,
    ensures
        number matches Some(n) ==> bounded_decimal(chars@.subrange(from as int, to as int), limit as int)
            == Some(n as int),
        number is None ==> bounded_decimal(chars@.subrange(from as int, to as int), limit as int)
            is None,
{
    let ghost field = chars@.subrange(from as int, to as int);
    if from == to {
        return None;
    }
    let mut value: u32 = 0;
    let mut i: usize = from;
    while i < to
        invariant
            from <= i <= to <= chars.len(),
            field == chars@.subrange(from as int, to as int),
            limit <= 400_000_000,
            all_digits(field.subrange(0, i - from)),
            value == decimal_value(field.subrange(0, i - from)),
            value <= limit,
        decreases to - i,
    {
        let c: char = chars[i];
        assert(field[i - from] == c);
        if !char_is_digit(c) {
            return None;
        }
        let digit: u8 = char_digit(c);
        let ghost longer = field.subrange(0, i - from + 1);
        proof {
            assert(longer.drop_last() =~= field.subrange(0, i - from));
            assert(longer.last() == c);
            assert forall|k: int| 0 <= k < longer.len() implies is_digit(#[trigger] longer[k]) by {
                if k < i - from {
                    assert(longer[k] == field.subrange(0, i - from)[k]);
                }
            }
        }
        let next: u32 = value * 10 + digit as u32;
        if next > limit {
            proof {
                if all_digits(field) {
                    lemma_decimal_value_grows(field, i - from + 1);
                }
            }
            return None;
        }
        value = next;
        i = i + 1;
    }
    proof {
        assert(field.subrange(0, to - from) =~= field);
    }
    Some(value)
}

} // verus!

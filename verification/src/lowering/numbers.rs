//! Decimal integers: what a text denotes and how a number is written.

use vstd::prelude::*;
use vstd::string::StrSliceExecFns;

verus! {

/// Whether the character is a decimal digit.
pub open spec fn is_digit(c: char) -> bool {
    '0' <= c <= '9'
}

/// The number that a decimal digit stands for.
pub open spec fn digit_value(c: char) -> int {
    c as int - '0' as int
}

/// Every character is a decimal digit, and there is at least one.
pub open spec fn all_digits(text: Seq<char>) -> bool {
    text.len() > 0 && forall|i: int| 0 <= i < text.len() ==> is_digit(#[trigger] text[i])
}

/// The number that a run of decimal digits stands for.
pub open spec fn magnitude(digits: Seq<char>) -> int
    decreases digits.len(),
{
    if digits.len() == 0 {
        0
    } else {
        magnitude(digits.drop_last()) * 10 + digit_value(digits.last())
    }
}

/// The unsigned machine word that the text denotes: an optional `+`, then
/// decimal digits and nothing else, in range.
pub open spec fn parse_usize(text: Seq<char>) -> Option<usize> {
    let digits = if text.len() > 0 && text[0] == '+' {
        text.subrange(1, text.len() as int)
    } else {
        text
    };
    if all_digits(digits) && magnitude(digits) <= usize::MAX {
        Some(magnitude(digits) as usize)
    } else {
        None
    }
}

/// The signed 32-bit integer that the text denotes: an optional sign, then
/// decimal digits and nothing else, in range.
pub open spec fn parse_i32(text: Seq<char>) -> Option<i32> {
    let negative = text.len() > 0 && text[0] == '-';
    let digits = if text.len() > 0 && (text[0] == '+' || text[0] == '-') {
        text.subrange(1, text.len() as int)
    } else {
        text
    };
    let value = if negative {
        -magnitude(digits)
    } else {
        magnitude(digits)
    };
    if all_digits(digits) && i32::MIN <= value <= i32::MAX {
        Some(value as i32)
    } else {
        None
    }
}

/// The character of a decimal digit.
pub open spec fn digit_char(digit: int) -> char {
    ('0' as int + digit) as char
}

/// The decimal digits of a natural number, without leading zeros.
pub open spec fn digits_of(value: nat) -> Seq<char>
    decreases value,
{
    if value < 10 {
        seq![digit_char(value as int)]
    } else {
        digits_of(value / 10).push(digit_char((value % 10) as int))
    }
}

/// An integer in decimal, with a minus sign where it is negative.
pub open spec fn decimal(value: int) -> Seq<char> {
    if value < 0 {
        seq!['-'] + digits_of((-value) as nat)
    } else {
        digits_of(value as nat)
    }
}

/// A longer run of digits stands for no smaller a number than its start.
pub proof fn lemma_magnitude_grows(digits: Seq<char>, count: int)
    requires
        0 <= count <= digits.len(),
        forall|i: int| 0 <= i < digits.len() ==> is_digit(#[trigger] digits[i]),
    ensures
        0 <= magnitude(digits.subrange(0, count)) <= magnitude(digits),
    decreases digits.len() - count,
{
    if count == digits.len() {
        assert(digits.subrange(0, count) =~= digits);
        lemma_magnitude_nonnegative(digits);
    } else {
        lemma_magnitude_grows(digits, count + 1);
        let longer = digits.subrange(0, count + 1);
        assert(longer.drop_last() =~= digits.subrange(0, count));
        assert(is_digit(digits[count]));
        assert(longer.last() == digits[count]);
        lemma_magnitude_nonnegative(digits.subrange(0, count));
    }
}

/// A run of digits stands for a natural number.
pub proof fn lemma_magnitude_nonnegative(digits: Seq<char>)
    requires
        forall|i: int| 0 <= i < digits.len() ==> is_digit(#[trigger] digits[i]),
    ensures
        0 <= magnitude(digits),
    decreases digits.len(),
{
    if digits.len() > 0 {
        lemma_magnitude_nonnegative(digits.drop_last());
        assert(is_digit(digits[digits.len() - 1]));
    }
}

/// Reads a run of digits from `from` on: their number, or nothing where a
/// character is no digit, where there is none, or where the number is above
/// `limit`.
fn read_digits(text: &str, from: usize, limit: u64) -> (r: Option<u64>)
    requires
        from <= text@.len(),
        limit <= 0xffff_ffff_ffff_ffff,
    ensures
        match r {
            Some(value) => all_digits(text@.subrange(from as int, text@.len() as int)) && value
                == magnitude(text@.subrange(from as int, text@.len() as int)) && value <= limit,
            None => !all_digits(text@.subrange(from as int, text@.len() as int)) || magnitude(
                text@.subrange(from as int, text@.len() as int),
            ) > limit,
        },
{
    let length = text.unicode_len();
    let ghost digits = text@.subrange(from as int, text@.len() as int);
    if from >= length {
        return None;
    }
    let mut value: u64 = 0;
    let mut at = from;
    assert(digits.subrange(0, 0) =~= Seq::<char>::empty());
    while at < length
        invariant
            from <= at <= length,
            length == text@.len(),
            digits == text@.subrange(from as int, text@.len() as int),
            forall|i: int| 0 <= i < at - from ==> is_digit(#[trigger] digits[i]),
            value == magnitude(digits.subrange(0, at - from)),
            value <= limit,
        decreases length - at,
    {
        let c = text.get_char(at);
        assert(c == digits[at - from]);
        if c < '0' || c > '9' {
            return None;
        }
        let digit = (c as u64) - ('0' as u64);
        proof {
            let longer = digits.subrange(0, at - from + 1);
            assert(longer.drop_last() =~= digits.subrange(0, at - from));
            assert(longer.last() == c);
        }
        if (value as u128) * 10 + (digit as u128) > (limit as u128) {
            proof {
                if all_digits(digits) {
                    lemma_magnitude_grows(digits, at - from + 1);
                }
            }
            return None;
        }
        value = value * 10 + digit;
        at += 1;
    }
    assert(digits.subrange(0, at - from) =~= digits);
    Some(value)
}

/// Parses a signed 32-bit integer written in decimal.
pub fn i32_of(text: &str) -> (r: Option<i32>)
    ensures
        r == parse_i32(text@),
{
    let length = text.unicode_len();
    if length == 0 {
        return None;
    }
    let first = text.get_char(0);
    assert(text@.subrange(0, text@.len() as int) =~= text@);
    if first == '-' {
        match read_digits(text, 1, 2147483648) {
            Some(value) => Some((0 - (value as i64)) as i32),
            None => None,
        }
    } else if first == '+' {
        match read_digits(text, 1, 2147483647) {
            Some(value) => Some(value as i32),
            None => None,
        }
    } else {
        match read_digits(text, 0, 2147483647) {
            Some(value) => Some(value as i32),
            None => None,
        }
    }
}

/// Parses an unsigned machine word written in decimal.
pub fn usize_of(text: &str) -> (r: Option<usize>)
    ensures
        r == parse_usize(text@),
{
    let length = text.unicode_len();
    if length == 0 {
        return None;
    }
    let first = text.get_char(0);
    assert(text@.subrange(0, text@.len() as int) =~= text@);
    let from: usize = if first == '+' {
        1
    } else {
        0
    };
    match read_digits(text, from, usize::MAX as u64) {
        Some(value) => Some(value as usize),
        None => None,
    }
}

fn digit_of(digit: u64) -> (r: char)
    requires
        digit < 10,
    ensures
        r == digit_char(digit as int),
{
    if digit == 0 {
        '0'
    } else if digit == 1 {
        '1'
    } else if digit == 2 {
        '2'
    } else if digit == 3 {
        '3'
    } else if digit == 4 {
        '4'
    } else if digit == 5 {
        '5'
    } else if digit == 6 {
        '6'
    } else if digit == 7 {
        '7'
    } else if digit == 8 {
        '8'
    } else {
        '9'
    }
}

fn push_digits(out: &mut String, value: u64)
    ensures
        final(out)@ == old(out)@ + digits_of(value as nat),
    decreases value,
{
    if value >= 10 {
        push_digits(out, value / 10);
    }
    out.push(digit_of(value % 10));
    assert(out@ =~= old(out)@ + digits_of(value as nat));
}

/// Writes a signed 32-bit integer in decimal.
pub fn text_of_i32(value: i32) -> (r: String)
    ensures
        r@ == decimal(value as int),
{
    let mut out = String::new();
    if value < 0 {
        out.push('-');
        push_digits(&mut out, (0 - (value as i64)) as u64);
        assert(out@ =~= decimal(value as int));
    } else {
        push_digits(&mut out, value as u64);
        assert(out@ =~= decimal(value as int));
    }
    out
}

/// Writes an unsigned machine word in decimal.
pub fn text_of_usize(value: usize) -> (r: String)
    ensures
        r@ == digits_of(value as nat),
{
    let mut out = String::new();
    push_digits(&mut out, value as u64);
    assert(out@ =~= digits_of(value as nat));
    out
}

} // verus!

//! Numbers as text.

use vstd::prelude::*;

verus! {

/// The character that writes the digit `d`.
pub open spec fn digit_char(d: nat) -> char {
    if d == 0 {
        '0'
    } else if d == 1 {
        '1'
    } else if d == 2 {
        '2'
    } else if d == 3 {
        '3'
    } else if d == 4 {
        '4'
    } else if d == 5 {
        '5'
    } else if d == 6 {
        '6'
    } else if d == 7 {
        '7'
    } else if d == 8 {
        '8'
    } else {
        '9'
    }
}

/// The decimal numeral of `n`: its digits, most significant first, with no
/// leading zero but for zero itself.
pub open spec fn decimal(n: nat) -> Seq<char>
    decreases n,
{
    if n < 10 {
        seq![digit_char(n)]
    } else {
        decimal(n / 10).push(digit_char(n % 10))
    }
}

/// The one-character text of the digit `d`.
fn digit_text(d: u64) -> (text: &'static str)
    requires
        d < 10,
    ensures
        text@ == seq![digit_char(d as nat)],
{
    proof {
        reveal_strlit("0");
        reveal_strlit("1");
        reveal_strlit("2");
        reveal_strlit("3");
        reveal_strlit("4");
        reveal_strlit("5");
        reveal_strlit("6");
        reveal_strlit("7");
        reveal_strlit("8");
        reveal_strlit("9");
    }
    let text: &'static str = if d == 0 {
        "0"
    } else if d == 1 {
        "1"
    } else if d == 2 {
        "2"
    } else if d == 3 {
        "3"
    } else if d == 4 {
        "4"
    } else if d == 5 {
        "5"
    } else if d == 6 {
        "6"
    } else if d == 7 {
        "7"
    } else if d == 8 {
        "8"
    } else {
        "9"
    };
    text
}

/// Writes `n` in decimal.
pub fn decimal_text(n: u64) -> (text: String)
    ensures
        text@ == decimal(n as nat),
    decreases n,
{
    if n < 10 {
        String::from_str(digit_text(n))
    } else {
        let mut text: String = decimal_text(n / 10);
        text.append(digit_text(n % 10));
        text
    }
}

/// The digit that `c` writes, if it writes one.
pub open spec fn digit_value(c: char) -> Option<nat> {
    if c == '0' {
        Some(0nat)
    } else if c == '1' {
        Some(1nat)
    } else if c == '2' {
        Some(2nat)
    } else if c == '3' {
        Some(3nat)
    } else if c == '4' {
        Some(4nat)
    } else if c == '5' {
        Some(5nat)
    } else if c == '6' {
        Some(6nat)
    } else if c == '7' {
        Some(7nat)
    } else if c == '8' {
        Some(8nat)
    } else if c == '9' {
        Some(9nat)
    } else {
        None
    }
}

/// The number that `digits` write in decimal, if every character is a
/// digit. No digit at all writes zero.
pub open spec fn digits_value(digits: Seq<char>) -> Option<nat>
    decreases digits.len(),
{
    if digits.len() == 0 {
        Some(0nat)
    } else {
        match (digits_value(digits.drop_last()), digit_value(digits.last())) {
            (Some(high), Some(low)) => Some(high * 10 + low),
            _ => None,
        }
    }
}

/// The number that `text` writes, if `text` is a decimal numeral that fits
/// 64 bits: one digit or more, after one plus sign at most, and nothing
/// else.
pub open spec fn parse_decimal(text: Seq<char>) -> Option<u64> {
    let digits = if text.len() > 0 && text[0] == '+' {
        text.skip(1)
    } else {
        text
    };
    if digits.len() == 0 {
        None
    } else {
        match digits_value(digits) {
            Some(value) => if value <= u64::MAX {
                Some(value as u64)
            } else {
                None
            },
            None => None,
        }
    }
}

/// A numeral is worth at least as much as each of its beginnings, and is
/// none where one of its beginnings is none.
proof fn lemma_beginning_is_smaller(digits: Seq<char>, k: int)
    requires
        0 <= k <= digits.len(),
    ensures
        digits_value(digits.take(k)) is None ==> digits_value(digits) is None,
        digits_value(digits) matches Some(whole) ==> digits_value(digits.take(k)) matches Some(
            part,
        ) && part <= whole,
    decreases digits.len() - k,
{
    if k == digits.len() {
        assert(digits.take(k) == digits);
    } else {
        let shorter = digits.drop_last();
        assert(shorter.take(k) == digits.take(k));
        lemma_beginning_is_smaller(shorter, k);
    }
}

/// The digit that `c` writes, if it writes one.
fn digit_of(c: char) -> (digit: Option<u64>)
    ensures
        match digit {
            Some(d) => digit_value(c) == Some(d as nat) && d < 10,
            None => digit_value(c) is None,
        },
{
    if c == '0' {
        Some(0)
    } else if c == '1' {
        Some(1)
    } else if c == '2' {
        Some(2)
    } else if c == '3' {
        Some(3)
    } else if c == '4' {
        Some(4)
    } else if c == '5' {
        Some(5)
    } else if c == '6' {
        Some(6)
    } else if c == '7' {
        Some(7)
    } else if c == '8' {
        Some(8)
    } else if c == '9' {
        Some(9)
    } else {
        None
    }
}

/// Reads `text` as a decimal numeral of 64 bits.
pub fn parse_u64(text: &str) -> (parsed: Option<u64>)
    ensures
        parsed == parse_decimal(text@),
{
    let len: usize = text.unicode_len();
    let start: usize = if len > 0 && text.get_char(0) == '+' {
        1
    } else {
        0
    };
    if start == len {
        return None;
    }
    let ghost digits: Seq<char> = text@.skip(start as int);
    let mut value: u64 = 0;
    let mut i: usize = start;
    while i < len
        invariant
            start <= i <= len,
            start < len,
            len == text@.len(),
            start == (if text@.len() > 0 && text@[0] == '+' {
                1int
            } else {
                0int
            }),
            digits == text@.skip(start as int),
            digits_value(digits.take(i - start)) == Some(value as nat),
        decreases len - i,
    {
        let c: char = text.get_char(i);
        let ghost longer: Seq<char> = digits.take(i - start + 1);
        proof {
            assert(longer.drop_last() == digits.take(i - start));
            lemma_beginning_is_smaller(digits, i - start + 1);
            assert(text@.skip(0) == text@);
        }
        let digit: u64 = match digit_of(c) {
            Some(digit) => digit,
            None => {
                return None;
            },
        };
        let tens: u64 = match value.checked_mul(10) {
            Some(tens) => tens,
            None => {
                return None;
            },
        };
        let next: u64 = match tens.checked_add(digit) {
            Some(next) => next,
            None => {
                return None;
            },
        };
        value = next;
        i += 1;
    }
    assert(digits.take(len - start) == digits);
    assert(text@.skip(0) == text@);
    Some(value)
}

/// Whether `c` is white space of the ASCII range: a space, a tab, a line
/// feed, a form feed or a carriage return.
pub open spec fn is_space(c: char) -> bool {
    c == ' ' || c == '\t' || c == '\n' || c == '\u{c}' || c == '\r'
}

/// Whether `text` is blank: empty, or white space throughout.
pub open spec fn blank(text: Seq<char>) -> bool {
    forall|i: int| 0 <= i < text.len() ==> is_space(#[trigger] text[i])
}

/// Whether `text` is blank.
pub fn is_blank(text: &str) -> (empty: bool)
    ensures
        empty == blank(text@),
{
    let len: usize = text.unicode_len();
    let mut i: usize = 0;
    while i < len
        invariant
            i <= len,
            len == text@.len(),
            forall|j: int| 0 <= j < i ==> is_space(#[trigger] text@[j]),
        decreases len - i,
    {
        let c: char = text.get_char(i);
        if !(c == ' ' || c == '\t' || c == '\n' || c == '\u{c}' || c == '\r') {
            return false;
        }
        i += 1;
    }
    true
}

} // verus!

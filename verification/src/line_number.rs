//! Line numbers as the user types them into the goto prompt.

use vstd::prelude::*;

verus! {

pub open spec fn is_digit(c: char) -> bool {
    '0' <= c <= '9'
}

pub open spec fn digit_value(c: char) -> nat {
    (c as int - '0' as int) as nat
}

/// Every character of `text` is a decimal digit.
pub open spec fn all_digits(text: Seq<char>) -> bool {
    forall|i: int| 0 <= i < text.len() ==> is_digit(#[trigger] text[i])
}

/// The number that the digits `text` write in base ten; 0 for no digits.
pub open spec fn decimal(text: Seq<char>) -> nat
    decreases text.len(),
{
    if text.len() == 0 {
        0
    } else {
        decimal(text.drop_last()) * 10 + digit_value(text.last())
    }
}

/// What a run of characters is, read as a number.
#[derive(Clone, Copy, PartialEq, Eq, Debug, Structural)]
pub enum Reading {
    /// Digits only, and the number fits the machine word.
    Number(usize),
    /// Digits only, and the number is larger than any machine word holds.
    TooLarge,
    /// Something else than a digit is among the characters.
    NotDigits,
}

/// The reading of `text`.
pub open spec fn reading(text: Seq<char>) -> Reading {
    if !all_digits(text) {
        Reading::NotDigits
    } else if decimal(text) > usize::MAX {
        Reading::TooLarge
    } else {
        Reading::Number(decimal(text) as usize)
    }
}

/// `text` without the plus sign that may stand in front of a number.
pub open spec fn unsigned_part(text: Seq<char>) -> Seq<char> {
    if text.len() > 0 && text[0] == '+' {
        text.drop_first()
    } else {
        text
    }
}

/// `text` parsed as an unsigned integer: one or more decimal digits, with or
/// without a plus sign in front, whose number fits the machine word.
pub open spec fn parsed(text: Seq<char>) -> Option<usize> {
    let digits = unsigned_part(text);
    match reading(digits) {
        Reading::Number(number) if digits.len() > 0 => Some(number),
        _ => None,
    }
}

/// The text of the goto prompt is valid where it holds digits only and the
/// number they write is no larger than the length of the document.
pub open spec fn valid_line_number(text: Seq<char>, document_length: usize) -> bool {
    all_digits(text) && decimal(text) <= document_length
}

/// The line that the goto prompt asks for, counted from 0, where `text` is
/// a number and the line is no larger than the length of the document. The
/// user counts lines from 1.
pub open spec fn goto_target(text: Seq<char>, document_length: usize) -> Option<usize> {
    match parsed(text) {
        Some(number) => {
            let line = if number > 0 {
                (number - 1) as usize
            } else {
                0
            };
            if line <= document_length {
                Some(line)
            } else {
                None
            }
        },
        None => None,
    }
}

/// Reads the characters of `text` from index `start` on as a number.
fn read_digits(text: &str, start: usize) -> (result: Reading)
    requires
        start <= text@.len(),
    ensures
        result == reading(text@.skip(start as int)),
{
    let ghost digits = text@.skip(start as int);
    let length = text.unicode_len();
    let mut value: usize = 0;
    let mut too_large = false;
    let mut i: usize = start;
    assert(digits.take(0) == Seq::<char>::empty());
    while i < length
        invariant
            start <= i <= length,
            length == text@.len(),
            digits == text@.skip(start as int),
            all_digits(digits.take(i - start)),
            too_large ==> decimal(digits.take(i - start)) > usize::MAX,
            !too_large ==> value == decimal(digits.take(i - start)),
        decreases length - i,
    {
        let c = text.get_char(i);
        assert(c == digits[i - start]);
        if !('0' <= c && c <= '9') {
            return Reading::NotDigits;
        }
        proof {
            let seen = digits.take(i - start + 1);
            assert(seen.drop_last() == digits.take(i - start));
            assert(seen.last() == c);
            assert forall|j: int| 0 <= j < seen.len() implies is_digit(#[trigger] seen[j]) by {
                if j < seen.len() - 1 {
                    assert(seen[j] == digits.take(i - start)[j]);
                }
            }
        }
        let digit = (c as u32 - '0' as u32) as usize;
        if !too_large {
            if value > (usize::MAX - digit) / 10 {
                too_large = true;
            } else {
                value = value * 10 + digit;
            }
        }
        i = i + 1;
    }
    assert(digits.take(i - start) == digits);
    if too_large {
        Reading::TooLarge
    } else {
        Reading::Number(value)
    }
}

/// Parses `text` as an unsigned integer.
pub fn parse_line_number(text: &str) -> (number: Option<usize>)
    ensures
        number == parsed(text@),
{
    let length = text.unicode_len();
    let start: usize = if length > 0 && text.get_char(0) == '+' {
        1
    } else {
        0
    };
    assert(text@.skip(start as int) == unsigned_part(text@));
    if start == length {
        return None;
    }
    match read_digits(text, start) {
        Reading::Number(number) => Some(number),
        _ => None,
    }
}

/// Tells whether the text of the goto prompt is valid for a document of
/// `document_length` lines.
pub fn is_valid_line_number(text: &str, document_length: usize) -> (valid: bool)
    ensures
        valid == valid_line_number(text@, document_length),
{
    assert(text@.skip(0) == text@);
    match read_digits(text, 0) {
        Reading::Number(number) => number <= document_length,
        _ => false,
    }
}

/// The line to go to for the text of the goto prompt, if there is one.
pub fn target_line(text: &str, document_length: usize) -> (line: Option<usize>)
    ensures
        line == goto_target(text@, document_length),
{
    match parse_line_number(text) {
        Some(number) => {
            let line = number.saturating_sub(1);
            if line <= document_length {
                Some(line)
            } else {
                None
            }
        },
        None => None,
    }
}

} // verus!

//! Texts compared, and decimal numbers written and read.
use vstd::prelude::*;

verus! {

/// The character that stands for a digit below ten.
pub open spec fn digit_char(d: nat) -> char {
    if d == 0 {
        '0'
    } else if d == 1 {
        '1'
    } else if d == 2 {
        '2'
    } else if d == 3 {
        '3'
    } else if d == 4 {
        '4'
    } else if d == 5 {
        '5'
    } else if d == 6 {
        '6'
    } else if d == 7 {
        '7'
    } else if d == 8 {
        '8'
    } else {
        '9'
    }
}

/// A number in decimal, without sign and without leading zeros.
pub open spec fn decimal(n: nat) -> Seq<char>
    decreases n,
{
    if n < 10 {
        seq![digit_char(n)]
    } else {
        decimal(n / 10).push(digit_char(n % 10))
    }
}

fn digit_str(d: u16) -> (s: &'static str)
    requires
        d < 10,
    ensures
        s@ == seq![digit_char(d as nat)],
{
    proof {
        reveal_strlit("0");
        reveal_strlit("1");
        reveal_strlit("2");
        reveal_strlit("3");
        reveal_strlit("4");
        reveal_strlit("5");
        reveal_strlit("6");
        reveal_strlit("7");
        reveal_strlit("8");
        reveal_strlit("9");
    }
    let s = match d {
        0 => "0",
        1 => "1",
        2 => "2",
        3 => "3",
        4 => "4",
        5 => "5",
        6 => "6",
        7 => "7",
        8 => "8",
        _ => "9",
    };
    s
}

/// Writes a number as `to_string` does.
pub fn decimal_string(n: u16) -> (s: String)
    ensures
        s@ == decimal(n as nat),
    decreases n,
{
    if n < 10 {
        String::from_str(digit_str(n))
    } else {
        let mut s = decimal_string(n / 10);
        s.append(digit_str(n % 10));
        s
    }
}

/// Tells whether two texts are the same.
pub fn text_eq(left: &str, right: &str) -> (same: bool)
    ensures
        same == (left@ == right@),
{
    String::from_str(left) == String::from_str(right)
}

/// `[0-9]`.
pub open spec fn is_digit(c: char) -> bool {
    '0' <= c && c <= '9'
}

/// The number that a digit stands for.
pub open spec fn digit_value(c: char) -> nat {
    (c as int - '0' as int) as nat
}

/// Whether a text holds digits only.
pub open spec fn all_digits(text: Seq<char>) -> bool {
    forall|i: int| 0 <= i < text.len() ==> is_digit(#[trigger] text[i])
}

/// The number that a run of digits stands for, leading zeros allowed.
pub open spec fn decimal_value(digits: Seq<char>) -> nat
    decreases digits.len(),
{
    if digits.len() == 0 {
        0
    } else {
        decimal_value(digits.drop_last()) * 10 + digit_value(digits.last())
    }
}

/// A text without the plus sign that may stand in front of a number.
pub open spec fn unsigned(text: Seq<char>) -> Seq<char> {
    if text.len() > 0 && text[0] == '+' {
        text.skip(1)
    } else {
        text
    }
}

/// The number up to 65535 that a text stands for: digits, at least one,
/// with or without a plus sign in front. Any other text stands for none.
pub open spec fn parsed_u16(text: Seq<char>) -> Option<u16> {
    let digits = unsigned(text);
    if digits.len() > 0 && all_digits(digits) && decimal_value(digits) <= u16::MAX {
        Some(decimal_value(digits) as u16)
    } else {
        None
    }
}

/// A run of digits stands for no less than any run it starts with.
proof fn lemma_decimal_value_grows(digits: Seq<char>, at: int)
    requires
        0 <= at <= digits.len(),
    ensures
        decimal_value(digits.take(at)) <= decimal_value(digits),
    decreases digits.len() - at,
{
    if at < digits.len() {
        lemma_decimal_value_grows(digits, at + 1);
        assert(digits.take(at + 1).drop_last() =~= digits.take(at));
    } else {
        assert(digits.take(at) =~= digits);
    }
}

/// What is written in decimal is digits, at least one, and stands for the
/// number that was written.
pub proof fn lemma_decimal_is_digits(n: nat)
    ensures
        decimal(n).len() > 0,
        all_digits(decimal(n)),
        decimal_value(decimal(n)) == n,
    decreases n,
{
    if n < 10 {
        assert(decimal_value(decimal(n).drop_last()) == 0);
    } else {
        lemma_decimal_is_digits(n / 10);
        assert(decimal(n).drop_last() =~= decimal(n / 10));
    }
}

/// What `decimal_string` writes, `parse_u16` reads back.
pub proof fn lemma_decimal_reads_back(n: u16)
    ensures
        parsed_u16(decimal(n as nat)) == Some(n),
{
    lemma_decimal_is_digits(n as nat);
}

/// Reads a number as `str::parse::<u16>` does.
pub fn parse_u16(text: &str) -> (number: Option<u16>)
    ensures
        number == parsed_u16(text@),
{
    let len = text.unicode_len();
    let digits = if len > 0 && text.get_char(0) == '+' {
        text.substring_char(1, len)
    } else {
        text
    };
    let mut value: u32 = 0;
    let mut seen: bool = false;
    for c in it: digits.chars()
        invariant
            it.seq() == digits@,
            digits@ == unsigned(text@),
            seen == (it.index() > 0),
            all_digits(digits@.take(it.index())),
            value == decimal_value(digits@.take(it.index())),
            value <= u16::MAX,
    {
        let ghost upto = digits@.take(it.index() + 1);
        assert(upto.drop_last() =~= digits@.take(it.index()));
        if !(c >= '0' && c <= '9') {
            return None;
        }
        let next: u32 = value * 10 + (c as u32 - '0' as u32);
        if next > 65535 {
            proof {
                lemma_decimal_value_grows(digits@, it.index() + 1);
            }
            return None;
        }
        value = next;
        seen = true;
    }
    assert(digits@.take(digits@.len() as int) =~= digits@);
    if seen {
        Some(value as u16)
    } else {
        None
    }
}

} // verus!

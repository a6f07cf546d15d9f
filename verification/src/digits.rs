//! The digit characters shared by the hexadecimal and decimal renderings.

use vstd::prelude::*;

verus! {

/// The digits of value zero to fifteen, lowercase. The first ten are the
/// decimal digits.
pub open spec fn digit_alphabet() -> Seq<char> {
    seq!['0', '1', '2', '3', '4', '5', '6', '7', '8', '9', 'a', 'b', 'c', 'd', 'e', 'f']
}

/// The character of the digit with value `d`, for `d` below sixteen.
pub open spec fn digit_char(d: int) -> char
    recommends
        0 <= d < 16,
{
    digit_alphabet()[d]
}

/// The value of a digit character, or `None` for any other character.
/// Uppercase letters are not digits here.
pub open spec fn digit_value(c: char) -> Option<int> {
    if exists|d: int| 0 <= d < 16 && digit_char(d) == c {
        Some(choose|d: int| 0 <= d < 16 && digit_char(d) == c)
    } else {
        None
    }
}

/// Distinct digit values have distinct characters, so reading a digit
/// character gives back the value it was written from.
pub proof fn lemma_digit_value_of_char(d: int)
    requires
        0 <= d < 16,
    ensures
        digit_value(digit_char(d)) == Some(d),
{
    assert(forall|a: int, b: int|
        0 <= a < 16 && 0 <= b < 16 && a != b ==> digit_alphabet()[a] != digit_alphabet()[b]);
}

/// The number that `chars` spells in base `radix`, most significant digit
/// first. A character that is no digit counts as zero.
pub open spec fn radix_value(chars: Seq<char>, radix: nat) -> nat
    decreases chars.len(),
{
    if chars.len() == 0 {
        0
    } else {
        let last = match digit_value(chars.last()) {
            Some(d) => d as nat,
            None => 0,
        };
        radix_value(chars.drop_last(), radix) * radix + last
    }
}

/// The one-character text of the digit with value `d`.
pub(crate) fn digit_text(d: u8) -> (text: &'static str)
    requires
        d < 16,
    ensures
        text@ == seq![digit_char(d as int)],
{
    proof {
        reveal_strlit("0");
        reveal_strlit("1");
        reveal_strlit("2");
        reveal_strlit("3");
        reveal_strlit("4");
        reveal_strlit("5");
        reveal_strlit("6");
        reveal_strlit("7");
        reveal_strlit("8");
        reveal_strlit("9");
        reveal_strlit("a");
        reveal_strlit("b");
        reveal_strlit("c");
        reveal_strlit("d");
        reveal_strlit("e");
        reveal_strlit("f");
    }
    let text = match d {
        0 => "0",
        1 => "1",
        2 => "2",
        3 => "3",
        4 => "4",
        5 => "5",
        6 => "6",
        7 => "7",
        8 => "8",
        9 => "9",
        10 => "a",
        11 => "b",
        12 => "c",
        13 => "d",
        14 => "e",
        _ => "f",
    };
    text
}

} // verus!

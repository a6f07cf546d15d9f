//! Reading unsigned decimal numbers from text.

use vstd::prelude::*;
use vstd::utf8::is_ascii_chars;
use crate::digits::{lemma_digit_value_of_char, radix_value};

verus! {

/// What is left of `text` behind one leading `+`, if there is one.
pub open spec fn unsigned_digits(text: Seq<char>) -> Seq<char> {
    if text.len() > 0 && text[0] == '+' {
        text.skip(1)
    } else {
        text
    }
}

/// Whether `digits` is a decimal number: one or more of `0` to `9`.
pub open spec fn is_decimal(digits: Seq<char>) -> bool {
    &&& digits.len() > 0
    &&& forall|i: int| 0 <= i < digits.len() ==> '0' <= #[trigger] digits[i] <= '9'
}

/// The number that `text` spells: decimal digits, which may follow one
/// `+`. Leading zeros are allowed. Anything else, be it blank, signed with
/// `-` or padded with spaces, spells none.
pub open spec fn unsigned_number(text: Seq<char>) -> Option<nat> {
    let digits = unsigned_digits(text);
    if is_decimal(digits) {
        Some(radix_value(digits, 10))
    } else {
        None
    }
}

/// Whether `bytes` holds `text`, a text of ASCII characters, one byte for
/// each character.
pub open spec fn holds_ascii(bytes: Seq<u8>, text: Seq<char>) -> bool {
    &&& bytes.len() == text.len()
    &&& forall|k: int|
        0 <= k < text.len() ==> '\0' <= #[trigger] text[k] <= '\u{7f}' && bytes[k] == text[k] as u8
}

/// A text that spells a number holds ASCII characters only.
pub proof fn lemma_number_is_ascii(text: Seq<char>)
    requires
        unsigned_number(text) is Some,
    ensures
        is_ascii_chars(text),
{
    let digits = unsigned_digits(text);
    assert forall|i: int| 0 <= i < text.len() implies '\0' <= #[trigger] text[i] <= '\u{7f}' by {
        if digits.len() == text.len() {
        } else if i > 0 {
            assert('0' <= digits[i - 1] <= '9');
        }
    }
}

/// What reading a number under a limit gives.
pub(crate) enum Reading {
    /// The number, which is within the limit.
    Value(u32),
    /// A number above the limit.
    TooLarge,
    /// No number.
    Malformed,
}

/// Reading one more decimal digit multiplies by ten and adds the digit.
proof fn lemma_radix_value_push(digits: Seq<char>, i: int)
    requires
        0 <= i < digits.len(),
        '0' <= digits[i] <= '9',
    ensures
        radix_value(digits.subrange(0, i + 1), 10) == radix_value(digits.subrange(0, i), 10) * 10
            + (digits[i] as int - '0' as int),
{
    lemma_digit_value_of_char(digits[i] as int - '0' as int);
    assert(digits.subrange(0, i + 1).drop_last() =~= digits.subrange(0, i));
}

/// Reads the number that stands in `bytes` from `from` up to `to`, as far
/// as it is within `limit`.
pub(crate) fn read_unsigned(
    bytes: &[u8],
    from: usize,
    to: usize,
    limit: u32,
    Ghost(text): Ghost<Seq<char>>,
) -> (reading: Reading)
    requires
        from <= to <= bytes@.len(),
        holds_ascii(bytes@, text),
    ensures
        ({
            let number = unsigned_number(text.subrange(from as int, to as int));
            match reading {
                Reading::Value(value) => value <= limit && number == Some(value as nat),
                Reading::TooLarge => number matches Some(n) && n > limit,
                Reading::Malformed => number is None,
            }
        }),
{
    let ghost digits = unsigned_digits(text.subrange(from as int, to as int));
    let start: usize = if from < to && bytes[from] == 0x2b {
        from + 1
    } else {
        from
    };
    let mut value: u64 = 0;
    let mut too_large = false;
    let mut malformed = start == to;
    let mut i: usize = start;
    while i < to
        invariant
            start <= i <= to <= bytes@.len(),
            holds_ascii(bytes@, text),
            digits == text.subrange(start as int, to as int),
            malformed <==> (start == to || exists|k: int|
                0 <= k < i - start && !('0' <= #[trigger] digits[k] <= '9')),
            !malformed && !too_large ==> value == radix_value(digits.subrange(0, i - start), 10)
                && value <= limit,
            !malformed && too_large ==> radix_value(digits.subrange(0, i - start), 10) > limit,
        decreases to - i,
    {
        let b = bytes[i];
        assert(digits[i - start] == text[i as int]);
        if b < 0x30 || b > 0x39 {
            malformed = true;
        } else if !malformed {
            proof {
                lemma_radix_value_push(digits, i - start);
            }
            if !too_large {
                value = value * 10 + (b - 0x30) as u64;
                too_large = value > limit as u64;
            }
        }
        i += 1;
    }
    assert(digits.subrange(0, to - start) =~= digits);
    if malformed {
        Reading::Malformed
    } else if too_large {
        Reading::TooLarge
    } else {
        Reading::Value(value as u32)
    }
}

} // verus!

//! Decimal rendering of unsigned integers, among them the integer that a
//! byte string spells in big-endian order.

use vstd::prelude::*;
use vstd::slice::slice_to_vec;
use vstd::string::StringExecFns;
use vstd::arithmetic::div_mod::lemma_fundamental_div_mod_converse;
use crate::digits::{digit_char, digit_text, lemma_digit_value_of_char, radix_value};

verus! {

/// The unsigned integer whose big-endian base-256 digits are `bytes`.
/// The empty string stands for zero.
pub open spec fn be_value(bytes: Seq<u8>) -> nat
    decreases bytes.len(),
{
    if bytes.len() == 0 {
        0
    } else {
        be_value(bytes.drop_last()) * 256 + bytes.last() as nat
    }
}

/// The decimal digits of `n`, most significant first, without leading zeros;
/// zero is the single digit `0`.
pub open spec fn decimal_chars(n: nat) -> Seq<char>
    decreases n,
{
    if n < 10 {
        seq![digit_char(n as int)]
    } else {
        decimal_chars(n / 10).push(digit_char((n % 10) as int))
    }
}

/// The digits that stand before the last one: none for a number below ten.
spec fn leading_decimal_chars(n: nat) -> Seq<char> {
    if n == 0 {
        Seq::empty()
    } else {
        decimal_chars(n)
    }
}

/// The characters of `digits`, a number's decimal digits with the least
/// significant first, in the order in which they are read.
spec fn reversed_digit_chars(digits: Seq<u8>) -> Seq<char> {
    Seq::new(digits.len(), |k: int| digit_char(digits[digits.len() - 1 - k] as int))
}

/// Every number is its last decimal digit behind the digits of its tenth.
proof fn lemma_decimal_step(n: nat)
    ensures
        decimal_chars(n) == leading_decimal_chars(n / 10) + seq![digit_char((n % 10) as int)],
{
}

/// The decimal text of a number holds the characters `0` to `9` and nothing
/// else, and at least one of them.
pub proof fn lemma_decimal_chars_are_digits(n: nat)
    ensures
        decimal_chars(n).len() >= 1,
        forall|i: int|
            0 <= i < decimal_chars(n).len() ==> '0' <= #[trigger] decimal_chars(n)[i] <= '9',
    decreases n,
{
    if n >= 10 {
        lemma_decimal_chars_are_digits(n / 10);
    }
}

/// Reading the decimal text of a number in base ten gives the number back.
pub proof fn lemma_decimal_chars_value(n: nat)
    ensures
        radix_value(decimal_chars(n), 10) == n,
    decreases n,
{
    let text = decimal_chars(n);
    if n < 10 {
        lemma_digit_value_of_char(n as int);
        assert(radix_value(text.drop_last(), 10) == 0);
    } else {
        lemma_decimal_chars_value(n / 10);
        lemma_digit_value_of_char((n % 10) as int);
        assert(text.drop_last() =~= decimal_chars(n / 10));
    }
}

/// The value of a prefix grows by one base-256 digit with each byte.
proof fn lemma_be_value_extend(bytes: Seq<u8>, i: int)
    requires
        0 <= i < bytes.len(),
    ensures
        be_value(bytes.subrange(0, i + 1)) == be_value(bytes.subrange(0, i)) * 256 + bytes[i],
{
    let longer = bytes.subrange(0, i + 1);
    assert(longer.drop_last() =~= bytes.subrange(0, i));
}

/// A byte string of zeros stands for zero, and only such a string does.
proof fn lemma_be_value_zero(bytes: Seq<u8>)
    ensures
        be_value(bytes) == 0 <==> (forall|i: int| 0 <= i < bytes.len() ==> bytes[i] == 0),
    decreases bytes.len(),
{
    if bytes.len() > 0 {
        let front = bytes.drop_last();
        lemma_be_value_zero(front);
        if be_value(bytes) == 0 {
            assert forall|i: int| 0 <= i < bytes.len() implies bytes[i] == 0 by {
                if i < bytes.len() - 1 {
                    assert(front[i] == bytes[i]);
                }
            }
        }
        if forall|i: int| 0 <= i < bytes.len() ==> bytes[i] == 0 {
            assert forall|i: int| 0 <= i < front.len() implies front[i] == 0 by {
            }
        }
    }
}

/// Divides the big-endian number in `number` by ten in place and returns
/// the remainder.
fn divide_by_ten(number: &mut Vec<u8>) -> (remainder: u8)
    ensures
        final(number)@.len() == old(number)@.len(),
        remainder < 10,
        be_value(old(number)@) == 10 * be_value(final(number)@) + remainder,
{
    let ghost dividend = number@;
    let len = number.len();
    let mut rem: u8 = 0;
    let mut i: usize = 0;
    while i < len
        invariant
            len == dividend.len(),
            number@.len() == len,
            i <= len,
            rem < 10,
            forall|j: int| i <= j < len ==> number@[j] == dividend[j],
            be_value(dividend.subrange(0, i as int)) == 10 * be_value(
                number@.subrange(0, i as int),
            ) + rem,
        decreases len - i,
    {
        let ghost before = number@;
        let acc: u16 = rem as u16 * 256 + number[i] as u16;
        let quotient: u8 = (acc / 10) as u8;
        rem = (acc % 10) as u8;
        number.set(i, quotient);
        proof {
            lemma_be_value_extend(dividend, i as int);
            lemma_be_value_extend(number@, i as int);
            assert(number@.subrange(0, i as int) =~= before.subrange(0, i as int));
        }
        i += 1;
    }
    proof {
        assert(dividend.subrange(0, len as int) =~= dividend);
        assert(number@.subrange(0, len as int) =~= number@);
    }
    rem
}

/// Whether `number` stands for zero.
fn is_zero(number: &Vec<u8>) -> (zero: bool)
    ensures
        zero <==> be_value(number@) == 0,
{
    proof {
        lemma_be_value_zero(number@);
    }
    let mut i: usize = 0;
    while i < number.len()
        invariant
            i <= number.len(),
            forall|j: int| 0 <= j < i ==> number@[j] == 0,
            be_value(number@) == 0 <==> (forall|j: int|
                0 <= j < number@.len() ==> number@[j] == 0),
        decreases number.len() - i,
    {
        if number[i] != 0 {
            return false;
        }
        i += 1;
    }
    true
}

/// The text of a number from its decimal digits, least significant first.
fn render_reversed(digits: &Vec<u8>) -> (text: String)
    requires
        forall|i: int| 0 <= i < digits@.len() ==> digits@[i] < 10,
    ensures
        text@ == reversed_digit_chars(digits@),
{
    let mut out = String::new();
    let mut k: usize = 0;
    while k < digits.len()
        invariant
            k <= digits.len(),
            forall|i: int| 0 <= i < digits@.len() ==> digits@[i] < 10,
            out@ == reversed_digit_chars(digits@).subrange(0, k as int),
        decreases digits.len() - k,
    {
        out.append(digit_text(digits[digits.len() - 1 - k]));
        k += 1;
    }
    out
}

/// Renders in decimal the unsigned integer that `bytes` spells in
/// big-endian order.
pub fn decimal_from_be_bytes(bytes: &[u8]) -> (text: String)
    ensures
        text@ == decimal_chars(be_value(bytes@)),
{
    let ghost n = be_value(bytes@);
    let mut number: Vec<u8> = slice_to_vec(bytes);
    let mut digits: Vec<u8> = Vec::new();
    loop
        invariant_except_break
            digits@.len() == 0 ==> be_value(number@) == n,
            digits@.len() > 0 ==> be_value(number@) > 0 && decimal_chars(n) == decimal_chars(
                be_value(number@),
            ) + reversed_digit_chars(digits@),
        invariant
            forall|i: int| 0 <= i < digits@.len() ==> digits@[i] < 10,
        ensures
            decimal_chars(n) == reversed_digit_chars(digits@),
        decreases be_value(number@),
    {
        let ghost value = be_value(number@);
        let ghost written = digits@;
        let remainder = divide_by_ten(&mut number);
        digits.push(remainder);
        proof {
            let rest = be_value(number@);
            lemma_fundamental_div_mod_converse(value as int, 10, rest as int, remainder as int);
            lemma_decimal_step(value);
            assert(reversed_digit_chars(digits@) =~= seq![digit_char(remainder as int)]
                + reversed_digit_chars(written));
            assert(decimal_chars(n) =~= leading_decimal_chars(rest) + reversed_digit_chars(
                digits@,
            ));
        }
        if is_zero(&number) {
            break;
        }
    }
    render_reversed(&digits)
}

/// Renders `n` in decimal.
pub fn decimal_from_usize(n: usize) -> (text: String)
    ensures
        text@ == decimal_chars(n as nat),
{
    let mut rest: usize = n;
    let mut digits: Vec<u8> = Vec::new();
    loop
        invariant_except_break
            digits@.len() == 0 ==> rest == n,
            digits@.len() > 0 ==> rest > 0 && decimal_chars(n as nat) == decimal_chars(
                rest as nat,
            ) + reversed_digit_chars(digits@),
        invariant
            forall|i: int| 0 <= i < digits@.len() ==> digits@[i] < 10,
        ensures
            decimal_chars(n as nat) == reversed_digit_chars(digits@),
        decreases rest,
    {
        let ghost value = rest;
        let ghost written = digits@;
        let remainder: u8 = (rest % 10) as u8;
        rest = rest / 10;
        digits.push(remainder);
        proof {
            lemma_decimal_step(value as nat);
            assert(reversed_digit_chars(digits@) =~= seq![digit_char(remainder as int)]
                + reversed_digit_chars(written));
            assert(decimal_chars(n as nat) =~= leading_decimal_chars(rest as nat)
                + reversed_digit_chars(digits@));
        }
        if rest == 0 {
            break;
        }
    }
    render_reversed(&digits)
}

} // verus!

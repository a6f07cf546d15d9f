//! Lowercase hexadecimal rendering of byte strings.

use vstd::prelude::*;
use vstd::string::StringExecFns;
use crate::decimal::be_value;
use crate::digits::{digit_char, digit_text, lemma_digit_value_of_char, radix_value};

verus! {

/// The value of the digit at position `i` of the hexadecimal rendering of
/// `bytes`: the high half of a byte comes first, then its low half.
pub open spec fn hex_nibble(bytes: Seq<u8>, i: int) -> int {
    if i % 2 == 0 {
        bytes[i / 2] as int / 16
    } else {
        bytes[i / 2] as int % 16
    }
}

/// Two lowercase hexadecimal digits for every byte, first byte first.
pub open spec fn hex_chars(bytes: Seq<u8>) -> Seq<char> {
    Seq::new(2 * bytes.len(), |i: int| digit_char(hex_nibble(bytes, i)))
}

/// `0x` followed by the hexadecimal digits of `bytes`.
pub open spec fn prefixed_hex_chars(bytes: Seq<u8>) -> Seq<char> {
    seq!['0', 'x'] + hex_chars(bytes)
}

/// Reading the hexadecimal text of a byte string in base sixteen gives the
/// integer that the bytes spell in big-endian order.
pub proof fn lemma_hex_chars_value(bytes: Seq<u8>)
    ensures
        radix_value(hex_chars(bytes), 16) == be_value(bytes),
    decreases bytes.len(),
{
    if bytes.len() > 0 {
        let front = bytes.drop_last();
        let text = hex_chars(bytes);
        let high = bytes.last() as int / 16;
        let low = bytes.last() as int % 16;
        lemma_hex_chars_value(front);
        lemma_digit_value_of_char(high);
        lemma_digit_value_of_char(low);
        assert(text.drop_last().drop_last() =~= hex_chars(front)) by {
            assert forall|i: int| 0 <= i < 2 * front.len() implies hex_nibble(bytes, i)
                == hex_nibble(front, i) by {}
        }
        assert(radix_value(text.drop_last(), 16) == be_value(front) * 16 + high);
    }
}

/// Appends the hexadecimal digits of `bytes` to `out`.
fn push_hex(out: &mut String, bytes: &[u8])
    ensures
        final(out)@ == old(out)@ + hex_chars(bytes@),
{
    let ghost start = out@;
    let mut i: usize = 0;
    while i < bytes.len()
        invariant
            i <= bytes.len(),
            out@ == start + hex_chars(bytes@).subrange(0, 2 * i),
        decreases bytes.len() - i,
    {
        let b = bytes[i];
        out.append(digit_text(b / 16));
        out.append(digit_text(b % 16));
        i += 1;
    }
}

/// Renders `bytes` as lowercase hexadecimal, two digits per byte.
pub fn hex_encode(bytes: &[u8]) -> (text: String)
    ensures
        text@ == hex_chars(bytes@),
{
    let mut out = String::new();
    push_hex(&mut out, bytes);
    out
}

/// Renders `bytes` as lowercase hexadecimal behind a literal `0x`.
pub fn hex_encode_prefixed(bytes: &[u8]) -> (text: String)
    ensures
        text@ == prefixed_hex_chars(bytes@),
{
    proof {
        reveal_strlit("0x");
    }
    let mut out = String::from_str("0x");
    push_hex(&mut out, bytes);
    out
}

} // verus!

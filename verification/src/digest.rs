//! Domain-separated hashing of a message before it is signed, after the
//! Ethereum signed-message convention.

use sha3::{Digest, Keccak256};
use vstd::prelude::*;
use vstd::utf8::{encode_utf8, is_ascii_chars, is_ascii_chars_encode_utf8};
use crate::decimal::{decimal_chars, decimal_from_usize, lemma_decimal_chars_are_digits};

verus! {

/// The literal that opens the pre-image of every signed message.
pub const SIGNED_MESSAGE_PREFIX: &'static str = "\x19Ethereum Signed Message:\n";

/// The Keccak-256 digest of `data`, as the `sha3` crate computes it.
pub uninterp spec fn keccak256(data: Seq<u8>) -> Seq<u8>;

/// Hashes `data` with `sha3::Keccak256` in one call of `Digest::digest`.
/// Trusted: the 32 bytes returned are the Keccak-256 digest of `data`,
/// a function of `data` alone.
#[verifier::external_body]
fn keccak256_digest(data: &[u8]) -> (digest: [u8; 32])
    ensures
        digest@ == keccak256(data@),
{
    Keccak256::digest(data).into()
}

/// What is hashed for a message: the fixed prefix, the length of the
/// message in bytes as decimal text without padding, and the bytes of the
/// message, all in UTF-8.
pub open spec fn signed_message_preimage(message: Seq<char>) -> Seq<u8> {
    encode_utf8(SIGNED_MESSAGE_PREFIX@) + encode_utf8(
        decimal_chars(encode_utf8(message).len()),
    ) + encode_utf8(message)
}

/// The digest that is signed for a message.
pub open spec fn signed_message_digest(message: Seq<char>) -> Seq<u8> {
    keccak256(signed_message_preimage(message))
}

/// The bytes of the prefix: 0x19, then `Ethereum Signed Message:` in ASCII
/// and a line feed.
pub open spec fn signed_message_prefix_bytes() -> Seq<u8> {
    seq![
        0x19u8, 0x45, 0x74, 0x68, 0x65, 0x72, 0x65, 0x75, 0x6d, 0x20, 0x53, 0x69, 0x67, 0x6e,
        0x65, 0x64, 0x20, 0x4d, 0x65, 0x73, 0x73, 0x61, 0x67, 0x65, 0x3a, 0x0a,
    ]
}

/// The prefix is hashed as these 26 bytes.
pub proof fn lemma_prefix_bytes()
    ensures
        encode_utf8(SIGNED_MESSAGE_PREFIX@) == signed_message_prefix_bytes(),
{
    reveal_strlit("\x19Ethereum Signed Message:\n");
    is_ascii_chars_encode_utf8(SIGNED_MESSAGE_PREFIX@);
}

/// The decimal text of a length is hashed as ASCII digits, one byte each.
pub proof fn lemma_decimal_bytes(n: nat)
    ensures
        encode_utf8(decimal_chars(n)).len() == decimal_chars(n).len(),
        forall|i: int|
            0 <= i < decimal_chars(n).len() ==> {
                &&& 0x30 <= #[trigger] encode_utf8(decimal_chars(n))[i] <= 0x39
                &&& encode_utf8(decimal_chars(n))[i] == decimal_chars(n)[i] as u8
            },
{
    lemma_decimal_chars_are_digits(n);
    is_ascii_chars_encode_utf8(decimal_chars(n));
}

/// Appends `bytes` to `out`.
fn push_bytes(out: &mut Vec<u8>, bytes: &[u8])
    ensures
        final(out)@ == old(out)@ + bytes@,
{
    let ghost start = out@;
    let mut i: usize = 0;
    while i < bytes.len()
        invariant
            i <= bytes.len(),
            out@ == start + bytes@.subrange(0, i as int),
        decreases bytes.len() - i,
    {
        out.push(bytes[i]);
        i += 1;
    }
}

/// Builds the pre-image of `message`.
pub fn build_preimage(message: &str) -> (preimage: Vec<u8>)
    ensures
        preimage@ == signed_message_preimage(message@),
{
    let message_bytes = message.as_bytes();
    let length = decimal_from_usize(message_bytes.len());
    let mut preimage: Vec<u8> = Vec::new();
    push_bytes(&mut preimage, SIGNED_MESSAGE_PREFIX.as_bytes());
    push_bytes(&mut preimage, length.as_str().as_bytes());
    push_bytes(&mut preimage, message_bytes);
    preimage
}

/// Computes the digest that is signed for `message`: Keccak-256 over the
/// prefixed, length-tagged message.
pub fn ethereum_message_hash(message: &str) -> (digest: [u8; 32])
    ensures
        digest@ == signed_message_digest(message@),
{
    let preimage = build_preimage(message);
    keccak256_digest(preimage.as_slice())
}

} // verus!

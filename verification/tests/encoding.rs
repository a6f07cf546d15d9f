use num_bigint::BigUint;
use randomness_beacon::decimal::{decimal_from_be_bytes, decimal_from_usize};
use randomness_beacon::hex::{hex_encode, hex_encode_prefixed};

/// A fixed sequence of byte strings that covers every byte value.
fn sample_bytes(seed: u8, len: usize) -> Vec<u8> {
    let mut out = Vec::with_capacity(len);
    let mut x = seed;
    for i in 0..len {
        x = x.wrapping_mul(167).wrapping_add(i as u8).wrapping_add(13);
        out.push(x);
    }
    out
}

fn bigint_fold(bytes: &[u8]) -> String {
    bytes
        .iter()
        .fold(BigUint::from(0u32), |acc, &byte| (acc << 8) + BigUint::from(byte))
        .to_string()
}

#[test]
fn hex_of_empty_is_empty() {
    assert_eq!(hex_encode(&[]), "");
    assert_eq!(hex_encode_prefixed(&[]), "0x");
}

#[test]
fn hex_is_lowercase_two_digits_per_byte() {
    assert_eq!(hex_encode(&[0x00, 0x0f, 0xa0, 0xff, 0x19]), "000fa0ff19");
    assert_eq!(hex_encode_prefixed(&[0xde, 0xad, 0xbe, 0xef]), "0xdeadbeef");
}

#[test]
fn hex_of_every_byte_value() {
    let all: Vec<u8> = (0..=255u8).collect();
    assert_eq!(hex_encode(&all), hex::encode(&all));
    assert_eq!(hex_encode(&all).len(), 512);
}

#[test]
fn hex_agrees_with_hex_crate() {
    for seed in 0..40u8 {
        let bytes = sample_bytes(seed, 32);
        assert_eq!(hex_encode(&bytes), hex::encode(&bytes));
        assert_eq!(hex_encode_prefixed(&bytes), format!("0x{}", hex::encode(&bytes)));
    }
}

#[test]
fn decimal_of_one_behind_zero_bytes_is_one() {
    let mut entropy = [0u8; 32];
    entropy[31] = 1;
    assert_eq!(decimal_from_be_bytes(&entropy), "1");
}

#[test]
fn decimal_of_zero_bytes_is_zero() {
    assert_eq!(decimal_from_be_bytes(&[0u8; 32]), "0");
    assert_eq!(decimal_from_be_bytes(&[0u8]), "0");
    assert_eq!(decimal_from_be_bytes(&[]), "0");
}

#[test]
fn decimal_of_small_values() {
    assert_eq!(decimal_from_be_bytes(&[9]), "9");
    assert_eq!(decimal_from_be_bytes(&[10]), "10");
    assert_eq!(decimal_from_be_bytes(&[255]), "255");
    assert_eq!(decimal_from_be_bytes(&[1, 0]), "256");
    assert_eq!(decimal_from_be_bytes(&[0, 0, 1, 0, 0]), "65536");
    assert_eq!(decimal_from_be_bytes(&[0x49, 0x96, 0x02, 0xd2]), "1234567890");
}

#[test]
fn decimal_of_largest_sample() {
    assert_eq!(
        decimal_from_be_bytes(&[0xff; 32]),
        "115792089237316195423570985008687907853269984665640564039457584007913129639935"
    );
}

#[test]
fn decimal_of_high_bit_only() {
    let mut entropy = [0u8; 32];
    entropy[0] = 0x80;
    assert_eq!(
        decimal_from_be_bytes(&entropy),
        "57896044618658097711785492504343953926634992332820282019728792003956564819968"
    );
}

#[test]
fn decimal_agrees_with_bigint_fold() {
    for seed in 0..60u8 {
        for len in [0usize, 1, 2, 7, 31, 32, 33, 64] {
            let bytes = sample_bytes(seed, len);
            assert_eq!(decimal_from_be_bytes(&bytes), bigint_fold(&bytes));
        }
    }
}

#[test]
fn decimal_reads_back_as_the_hex_value() {
    for seed in 0..20u8 {
        let bytes = sample_bytes(seed, 32);
        let decimal = decimal_from_be_bytes(&bytes);
        let hex_text = hex_encode(&bytes);
        let from_decimal = BigUint::parse_bytes(decimal.as_bytes(), 10).unwrap();
        let from_hex = BigUint::parse_bytes(hex_text.as_bytes(), 16).unwrap();
        assert_eq!(from_decimal, from_hex);
        assert_eq!(from_decimal, BigUint::from_bytes_be(&bytes));
    }
}

#[test]
fn decimal_of_usize_values() {
    assert_eq!(decimal_from_usize(0), "0");
    assert_eq!(decimal_from_usize(7), "7");
    assert_eq!(decimal_from_usize(10), "10");
    assert_eq!(decimal_from_usize(99), "99");
    assert_eq!(decimal_from_usize(100), "100");
    assert_eq!(decimal_from_usize(108), "108");
    assert_eq!(decimal_from_usize(1_234_567_890), "1234567890");
    assert_eq!(decimal_from_usize(usize::MAX), format!("{}", usize::MAX));
}

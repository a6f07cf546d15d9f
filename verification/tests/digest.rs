use randomness_beacon::digest::{build_preimage, ethereum_message_hash, SIGNED_MESSAGE_PREFIX};
use randomness_beacon::hex::hex_encode;
use randomness_beacon::message::{build_message, FIELD_DELIMITER, MESSAGE_TAG};

#[test]
fn message_follows_the_template() {
    let message = build_message("0xabc123", "2024-05-17T09:30:00.125Z");
    assert_eq!(message, "RandomnessBeacon|0xabc123|2024-05-17T09:30:00.125Z");
}

#[test]
fn message_constants_are_fixed() {
    assert_eq!(MESSAGE_TAG, "RandomnessBeacon");
    assert_eq!(FIELD_DELIMITER, "|");
    assert_eq!(SIGNED_MESSAGE_PREFIX.as_bytes()[0], 0x19);
    assert_eq!(&SIGNED_MESSAGE_PREFIX[1..], "Ethereum Signed Message:\n");
}

#[test]
fn message_of_empty_fields() {
    assert_eq!(build_message("", ""), "RandomnessBeacon||");
}

#[test]
fn preimage_is_prefix_length_message() {
    assert_eq!(build_preimage("hello"), b"\x19Ethereum Signed Message:\n5hello".to_vec());
    assert_eq!(build_preimage(""), b"\x19Ethereum Signed Message:\n0".to_vec());
}

#[test]
fn preimage_length_has_no_padding() {
    let message = "x".repeat(108);
    let mut expected = b"\x19Ethereum Signed Message:\n108".to_vec();
    expected.extend_from_slice(message.as_bytes());
    assert_eq!(build_preimage(&message), expected);
}

#[test]
fn preimage_counts_bytes_not_characters() {
    let message = "h\u{e9}llo";
    let mut expected = b"\x19Ethereum Signed Message:\n6".to_vec();
    expected.extend_from_slice(message.as_bytes());
    assert_eq!(build_preimage(message), expected);
}

#[test]
fn digest_of_hello_world() {
    let digest = ethereum_message_hash("Hello World");
    assert_eq!(
        hex_encode(&digest),
        "a1de988600a42c4b4ab089b619297c17d53cffae5d5120d82d8a92d0bb3b78f2"
    );
}

#[test]
fn digest_is_not_the_message() {
    let message = "0123456789abcdef0123456789abcdef";
    let digest = ethereum_message_hash(message);
    assert_ne!(&digest[..], message.as_bytes());
    assert_ne!(digest, [0u8; 32]);
}

#[test]
fn digest_agrees_with_ethers_hash_message() {
    let long = "long ".repeat(50);
    let messages = [
        "",
        "a",
        "hello",
        "RandomnessBeacon|0x00|2024-01-01T00:00:00.000Z",
        "h\u{e9}llo",
        long.as_str(),
    ];
    for message in messages {
        let expected = ethers_core::utils::hash_message(message);
        assert_eq!(ethereum_message_hash(message), expected.0);
    }
}

#[test]
fn digest_is_keccak_of_the_preimage() {
    let message = "RandomnessBeacon|0x01|2024-01-01T00:00:00.000Z";
    let expected = ethers_core::utils::keccak256(build_preimage(message));
    assert_eq!(ethereum_message_hash(message), expected);
}

#[test]
fn digest_differs_from_plain_keccak() {
    let message = "RandomnessBeacon|0x01|2024-01-01T00:00:00.000Z";
    assert_ne!(ethereum_message_hash(message), ethers_core::utils::keccak256(message));
}

use ethers_signers::coins_bip39::English;
use ethers_signers::MnemonicBuilder;
use randomness_beacon::error::ConfigurationError;
use randomness_beacon::keys::derive_keypair;
use randomness_beacon::path::{check_derivation_path, HARDENED_OFFSET, MAX_DEPTH};

const PHRASE: &str = "test test test test test test test test test test test junk";

fn builder_accepts(path: &str) -> bool {
    MnemonicBuilder::<English>::default().derivation_path(path).is_ok()
}

fn deep_path(indices: usize) -> String {
    let mut path = String::from("m");
    for _ in 0..indices {
        path.push_str("/0");
    }
    path
}

#[test]
fn standard_paths_are_valid() {
    assert!(check_derivation_path("m/44'/60'/0'/0/0"));
    assert!(check_derivation_path("m/44'/60'/0'/0/1"));
    assert!(check_derivation_path("m/44h/60h/0h/0/0"));
    assert!(check_derivation_path("m/0"));
    assert!(check_derivation_path("m"));
}

#[test]
fn path_limits_are_fixed() {
    assert_eq!(MAX_DEPTH, 255);
    assert_eq!(HARDENED_OFFSET, 2_147_483_648);
}

#[test]
fn empty_segments_are_invalid() {
    for path in ["", "/", "m/", "/m", "m//0", "m/0/", "//"] {
        assert!(!check_derivation_path(path));
    }
}

#[test]
fn segments_that_are_no_numbers_are_invalid() {
    for path in [
        "M/0", "m/x", "m/-1", "m/ 1", "m/1 ", "m/1''", "m/1'h", "m/1hh", "m/'", "m/h", "m/+",
        "m/+'", "m/1+", "m/0x10", "m/1.0", "mm", "m/m'", "m/44'/60'/0'/0/zero",
    ] {
        assert!(!check_derivation_path(path));
    }
}

#[test]
fn index_limits() {
    assert!(check_derivation_path("m/4294967295"));
    assert!(!check_derivation_path("m/4294967296"));
    assert!(check_derivation_path("m/2147483648"));
    assert!(check_derivation_path("m/2147483647'"));
    assert!(!check_derivation_path("m/2147483648'"));
    assert!(!check_derivation_path("m/2147483648h"));
    assert!(!check_derivation_path("m/4294967295'"));
    assert!(!check_derivation_path("m/99999999999999999999"));
}

#[test]
fn unusual_but_valid_paths() {
    for path in ["44/60", "0", "m/m/1", "m/+5", "m/+5'", "m/0005'", "m/00000000000000000044", "1/m"] {
        assert!(check_derivation_path(path));
    }
}

#[test]
fn other_scripts_are_invalid() {
    assert!(!check_derivation_path("m/\u{661}"));
    assert!(!check_derivation_path("m/1/\u{e9}"));
    assert!(!check_derivation_path("m\u{2215}0"));
    assert!(!check_derivation_path("m/44\u{2019}"));
}

#[test]
fn depth_limit() {
    assert!(check_derivation_path(&deep_path(255)));
    assert!(!check_derivation_path(&deep_path(256)));
    assert!(!check_derivation_path(&deep_path(1000)));
    let markers = "m/".repeat(400) + "0";
    assert!(check_derivation_path(&markers));
}

#[test]
fn grammar_agrees_with_the_builder() {
    let paths = [
        "m/44'/60'/0'/0/0", "m", "", "/", "m/", "/m", "m//0", "44/60", "0", "m/m/1", "m/+5",
        "m/+5'", "m/0005'", "M/0", "m/x", "m/-1", "m/ 1", "m/1 ", "m/1''", "m/1'h", "m/1hh",
        "m/'", "m/h", "m/+", "m/+'", "m/1+", "m/0x10", "mm", "m/m'", "m/4294967295",
        "m/4294967296", "m/2147483648", "m/2147483647'", "m/2147483647h", "m/0/1/2/3/4/5/6/7",
        "1/m", "m/\u{661}", "m/1/\u{e9}", "m/00000000000000000044", "m/99999999999999999999",
        "m/1/x/4294967295", "m/44'/60'/0'/0/zero", "h", "'", "m'", "mh", "+", "m/1h/2'/3",
    ];
    for path in paths {
        assert_eq!(check_derivation_path(path), builder_accepts(path));
    }
}

#[test]
fn invalid_paths_are_configuration_errors() {
    for path in ["", "m/", "m/x", "m/2147483648'", "m/4294967295'", "m/4294967295h/0"] {
        assert!(matches!(
            derive_keypair(PHRASE, path),
            Err(ConfigurationError::InvalidDerivationPath)
        ));
    }
    assert!(matches!(
        derive_keypair(PHRASE, &deep_path(256)),
        Err(ConfigurationError::InvalidDerivationPath)
    ));
}

#[test]
fn deepest_path_derives_a_key() {
    assert!(derive_keypair(PHRASE, &deep_path(255)).is_ok());
    assert!(derive_keypair(PHRASE, "m").is_ok());
    assert!(derive_keypair(PHRASE, "m/4294967295").is_ok());
    assert!(derive_keypair(PHRASE, "m/2147483647'").is_ok());
}

use randomness_beacon::config::{
    listen_port, parse_port, DEFAULT_PORT, MNEMONIC_SETTING, PORT_SETTING,
};

#[test]
fn settings_have_their_names() {
    assert_eq!(MNEMONIC_SETTING, "MNEMONIC");
    assert_eq!(PORT_SETTING, "PORT");
}

#[test]
fn default_port_is_8080() {
    assert_eq!(DEFAULT_PORT, 8080);
    assert_eq!(listen_port(None), 8080);
}

#[test]
fn named_port_is_used() {
    assert_eq!(listen_port(Some("3000")), 3000);
    assert_eq!(listen_port(Some("1")), 1);
    assert_eq!(listen_port(Some("0")), 0);
    assert_eq!(listen_port(Some("65535")), 65535);
}

#[test]
fn unreadable_port_falls_back_to_the_default() {
    for text in ["", "abc", "80a", "a80", " 80", "80 ", "-80", "+", "++80", "8 0", "0x50", "80.0"] {
        assert_eq!(listen_port(Some(text)), 8080);
        assert_eq!(parse_port(text), None);
    }
}

#[test]
fn port_above_the_range_falls_back_to_the_default() {
    assert_eq!(listen_port(Some("65536")), 8080);
    assert_eq!(listen_port(Some("70000")), 8080);
    assert_eq!(listen_port(Some("99999999999999999999999999")), 8080);
    assert_eq!(parse_port("65536"), None);
}

#[test]
fn port_may_carry_a_plus_or_leading_zeros() {
    assert_eq!(parse_port("+80"), Some(80));
    assert_eq!(parse_port("0080"), Some(80));
    assert_eq!(parse_port("+0000000000000000000000065535"), Some(65535));
    assert_eq!(parse_port("000000000000000000000000"), Some(0));
}

#[test]
fn digits_of_other_scripts_name_no_port() {
    assert_eq!(parse_port("\u{ff18}\u{ff10}"), None);
    assert_eq!(parse_port("8\u{e9}"), None);
    assert_eq!(listen_port(Some("\u{663}\u{660}")), 8080);
}

#[test]
fn port_parsing_agrees_with_the_standard_parser() {
    let texts = [
        "", "0", "7", "80", "443", "8080", "65535", "65536", "65540", "99999", "100000", "+1",
        "+65535", "+65536", "-0", "-1", "+", "-", "+-1", "1+", "12a", "a12", " 12", "12 ", "1 2",
        "00000", "000001", "0000065535", "0000065536", "4294967295", "4294967296", "\n80", "80\n",
        "18446744073709551616", "6553", "655350", "+0", "0+",
    ];
    for text in texts {
        assert_eq!(parse_port(text), text.parse::<u16>().ok());
    }
    for n in 0..=70_000u32 {
        let text = n.to_string();
        assert_eq!(parse_port(&text), text.parse::<u16>().ok());
    }
}

//! Startup settings that are read from plain text.

use vstd::prelude::*;
use vstd::string::is_ascii_spec_bytes;
use crate::parse::{lemma_number_is_ascii, read_unsigned, unsigned_number, Reading};

verus! {

/// The name of the setting that holds the mnemonic phrase. It is required.
pub const MNEMONIC_SETTING: &'static str = "MNEMONIC";

/// The name of the setting that holds the port. It is optional.
pub const PORT_SETTING: &'static str = "PORT";

/// The port that is served where none is named.
pub const DEFAULT_PORT: u16 = 8080;

/// The port that `text` names: a decimal number of at most 65535, which
/// may follow one `+`. Anything else, be it blank, signed with `-`, padded
/// with spaces or too large, names none.
pub open spec fn named_port(text: Seq<char>) -> Option<u16> {
    match unsigned_number(text) {
        Some(n) => if n <= u16::MAX {
            Some(n as u16)
        } else {
            None
        },
        None => None,
    }
}

/// The port to listen on for the setting `value`: the port it names, and
/// the default where it is absent or names none.
pub open spec fn port_setting(value: Option<Seq<char>>) -> u16 {
    match value {
        Some(text) => match named_port(text) {
            Some(port) => port,
            None => DEFAULT_PORT,
        },
        None => DEFAULT_PORT,
    }
}

/// Reads a port from `text`.
pub fn parse_port(text: &str) -> (port: Option<u16>)
    ensures
        port == named_port(text@),
{
    if !text.is_ascii() {
        proof {
            if unsigned_number(text@) is Some {
                lemma_number_is_ascii(text@);
            }
        }
        return None;
    }
    let bytes = text.as_bytes();
    proof {
        is_ascii_spec_bytes(text);
        assert(text@.subrange(0, text@.len() as int) =~= text@);
    }
    match read_unsigned(bytes, 0, bytes.len(), 65535, Ghost(text@)) {
        Reading::Value(value) => Some(value as u16),
        _ => None,
    }
}

/// The port to listen on, from the setting of the port if there is one.
pub fn listen_port(value: Option<&str>) -> (port: u16)
    ensures
        port == port_setting(
            match value {
                Some(text) => Some(text@),
                None => None,
            },
        ),
{
    match value {
        Some(text) => match parse_port(text) {
            Some(port) => port,
            None => DEFAULT_PORT,
        },
        None => DEFAULT_PORT,
    }
}

} // verus!

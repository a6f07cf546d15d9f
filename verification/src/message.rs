//! The canonical beacon message: what is hashed and signed.

use vstd::prelude::*;
use vstd::string::StringExecFns;

verus! {

/// The tag that opens every beacon message.
pub const MESSAGE_TAG: &'static str = "RandomnessBeacon";

/// The delimiter between the fields of a beacon message.
pub const FIELD_DELIMITER: &'static str = "|";

/// The canonical message for a random value in its `0x` hexadecimal form
/// and a timestamp text: tag, random value and timestamp, joined by the
/// delimiter. Nothing derived from them, such as a digest, is part of it.
pub open spec fn canonical_message(random_hex: Seq<char>, timestamp: Seq<char>) -> Seq<char> {
    MESSAGE_TAG@ + FIELD_DELIMITER@ + random_hex + FIELD_DELIMITER@ + timestamp
}

/// Builds the canonical message for `random_hex` and `timestamp`.
pub fn build_message(random_hex: &str, timestamp: &str) -> (message: String)
    ensures
        message@ == canonical_message(random_hex@, timestamp@),
{
    let mut message = String::from_str(MESSAGE_TAG);
    message.append(FIELD_DELIMITER);
    message.append(random_hex);
    message.append(FIELD_DELIMITER);
    message.append(timestamp);
    message
}

} // verus!

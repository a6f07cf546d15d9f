//! A verifiable randomness beacon.
//!
//! Each beacon binds a fresh 32-byte random value to a timestamp in a
//! canonical message, hashes that message under the Ethereum signed-message
//! convention and signs the digest with a key derived from a BIP-39 mnemonic.
//! A client that knows the signer can check that this signer attested this
//! value at this time.
//!
//! The encodings, the message template, the digest pre-image and the
//! assembly of a response are verified. The cryptographic primitives, the
//! random source and the clock are called through small trusted functions;
//! each says where it is declared what is believed of it.
//!
//! - [`keys`]: the key pair, derived once from the mnemonic.
//! - [`entropy`], [`timestamp`]: what a beacon observes.
//! - [`hex`], [`decimal`], [`digits`]: how values are rendered.
//! - [`message`], [`digest`], [`signing`]: what is signed, and how.
//! - [`beacon`]: the state of the service and the response to a request.
//! - [`config`], [`error`]: startup settings and errors.

pub mod beacon;
pub mod config;
pub mod decimal;
pub mod digest;
pub mod digits;
pub mod entropy;
pub mod error;
pub mod hex;
pub mod keys;
pub mod message;
pub mod parse;
pub mod path;
pub mod signing;
pub mod timestamp;

//! Errors of the beacon. None of them carries text from the primitives
//! below: a rejected phrase must never reach a log through an error.

use vstd::prelude::*;
use vstd::string::StringExecFns;

verus! {

/// Why no signing key could be had at startup. Each is fatal: without a
/// key there is nothing to serve.
#[derive(Clone, Copy, Debug, PartialEq, Eq, Structural)]
pub enum ConfigurationError {
    /// No mnemonic phrase was given.
    MissingMnemonic,
    /// The phrase is no valid BIP-39 mnemonic.
    InvalidMnemonic,
    /// The derivation path is not well formed.
    InvalidDerivationPath,
    /// Phrase and path were read, but no usable key came out.
    KeyUnavailable,
}

/// The secure random source gave no bytes.
#[derive(Clone, Copy, Debug, PartialEq, Eq, Structural)]
pub struct EntropySourceError;

/// The signing primitive gave no signature.
#[derive(Clone, Copy, Debug, PartialEq, Eq, Structural)]
pub struct SigningError;

/// Why one request for a beacon failed. Such a failure ends that request
/// only.
#[derive(Clone, Copy, Debug, PartialEq, Eq, Structural)]
pub enum BeaconError {
    /// No entropy could be drawn.
    Entropy(EntropySourceError),
    /// The message could not be signed.
    Signing(SigningError),
}

impl ConfigurationError {
    /// A line for the operator.
    pub fn message(&self) -> (text: String)
        ensures
            text@ == match *self {
                ConfigurationError::MissingMnemonic => "mnemonic phrase is not set"@,
                ConfigurationError::InvalidMnemonic => "invalid mnemonic phrase"@,
                ConfigurationError::InvalidDerivationPath => "invalid derivation path"@,
                ConfigurationError::KeyUnavailable => "no signing key could be derived"@,
            },
    {
        match self {
            ConfigurationError::MissingMnemonic => String::from_str("mnemonic phrase is not set"),
            ConfigurationError::InvalidMnemonic => String::from_str("invalid mnemonic phrase"),
            ConfigurationError::InvalidDerivationPath => String::from_str(
                "invalid derivation path",
            ),
            ConfigurationError::KeyUnavailable => String::from_str(
                "no signing key could be derived",
            ),
        }
    }
}

impl BeaconError {
    /// The text of the error object that answers a failed request.
    pub fn message(&self) -> (text: String)
        ensures
            text@ == match *self {
                BeaconError::Entropy(_) => "secure random source unavailable"@,
                BeaconError::Signing(_) => "failed to sign message"@,
            },
    {
        match self {
            BeaconError::Entropy(_) => String::from_str("secure random source unavailable"),
            BeaconError::Signing(_) => String::from_str("failed to sign message"),
        }
    }
}

} // verus!

//! Deterministic derivation of the signing key pair from a mnemonic.

use ethers_core::types::PathOrString;
use ethers_signers::coins_bip39::{English, Mnemonic};
use ethers_signers::{LocalWallet, MnemonicBuilder, Signer, WalletError};
use vstd::prelude::*;
use crate::error::ConfigurationError;
use crate::path::{check_derivation_path, is_derivation_path};

verus! {

/// The derivation path of the beacon's key: the first account of the
/// standard Ethereum hierarchy.
pub const DERIVATION_PATH: &'static str = "m/44'/60'/0'/0/0";

/// `ethers_signers::WalletError`: what the wallet primitives report when
/// they fail. It is carried through unread: its text may hold the phrase.
#[verifier::external_type_specification]
#[verifier::external_body]
pub struct ExWalletError(WalletError);

/// Whether `phrase` is a valid BIP-39 mnemonic of the English word list,
/// checksum included, as `coins_bip39::Mnemonic::new_from_phrase` accepts
/// it.
pub uninterp spec fn mnemonic_accepted(phrase: Seq<char>) -> bool;

/// The 32-byte secp256k1 secret key that BIP-39 and BIP-32 give for the
/// mnemonic `phrase` (English word list, no passphrase) along the
/// derivation path `path`, as `ethers_signers::MnemonicBuilder` derives it;
/// `None` where it derives none.
pub uninterp spec fn derived_secret(phrase: Seq<char>, path: Seq<char>) -> Option<Seq<u8>>;

/// The 20-byte Ethereum address of the key pair with the secret key
/// `secret`, as `ethers_signers::LocalWallet` computes it; `None` where
/// `secret` is no valid key.
pub uninterp spec fn secp256k1_address(secret: Seq<u8>) -> Option<Seq<u8>>;

/// Hands `phrase` to `Mnemonic::<English>::new_from_phrase`. Trusted:
/// whether the phrase is accepted depends on the phrase alone.
#[verifier::external_body]
fn phrase_accepted(phrase: &str) -> (accepted: bool)
    ensures
        accepted == mnemonic_accepted(phrase@),
{
    Mnemonic::<English>::new_from_phrase(phrase).is_ok()
}

/// Derives the secret key with `MnemonicBuilder`: the phrase is handed over
/// as text (never as the name of a file), then the path, then `build`.
/// Trusted: the outcome is a function of phrase and path alone, named
/// `derived_secret`. The path is to be of the grammar: on an index that is
/// marked as hardened and not below the offset, and on more than 255
/// indices, the derivation overflows.
#[verifier::external_body]
fn mnemonic_secret(phrase: &str, path: &str) -> (outcome: Result<[u8; 32], WalletError>)
    requires
        is_derivation_path(path@),
    ensures
        match outcome {
            Ok(secret) => derived_secret(phrase@, path@) == Some(secret@),
            Err(_) => derived_secret(phrase@, path@) is None,
        },
{
    let builder = MnemonicBuilder::<English>::default()
        .phrase(PathOrString::String(phrase.to_string()))
        .derivation_path(path)?;
    Ok(builder.build()?.signer().to_bytes().into())
}

/// Computes the address of a secret key with `LocalWallet::from_bytes`.
/// Trusted: the outcome is a function of the key alone, named
/// `secp256k1_address`.
#[verifier::external_body]
fn wallet_address(secret: &[u8; 32]) -> (outcome: Result<[u8; 20], WalletError>)
    ensures
        match outcome {
            Ok(address) => secp256k1_address(secret@) == Some(address@),
            Err(_) => secp256k1_address(secret@) is None,
        },
{
    Ok(LocalWallet::from_bytes(secret)?.address().0)
}

/// A secp256k1 key pair: the secret key and the address of its public key.
/// It is made once and never changed.
pub struct SigningKeypair {
    secret: [u8; 32],
    address: [u8; 20],
}

impl SigningKeypair {
    /// The secret key.
    pub closed spec fn secret_key(&self) -> Seq<u8> {
        self.secret@
    }

    /// The address of the public key: the signer identity, as bytes.
    pub closed spec fn address_bytes(&self) -> Seq<u8> {
        self.address@
    }

    /// The address is that of the secret key.
    #[verifier::type_invariant]
    pub open spec fn wf(&self) -> bool {
        secp256k1_address(self.secret_key()) == Some(self.address_bytes())
    }

    /// The address of the public key.
    pub fn address(&self) -> (address: &[u8; 20])
        ensures
            address@ == self.address_bytes(),
            self.wf(),
    {
        proof {
            use_type_invariant(self);
        }
        &self.address
    }

    /// The secret key, for the signing primitive only.
    pub(crate) fn secret(&self) -> (secret: &[u8; 32])
        ensures
            secret@ == self.secret_key(),
            self.wf(),
    {
        proof {
            use_type_invariant(self);
        }
        &self.secret
    }
}

/// What `phrase` and `path` stand for: the derived secret key with its
/// address, or the reason why there is none. A path that is not of the
/// grammar is reported first, then an invalid phrase; where both are
/// accepted and still no key comes out, the key is unavailable.
pub open spec fn derivation(phrase: Seq<char>, path: Seq<char>) -> Result<
    (Seq<u8>, Seq<u8>),
    ConfigurationError,
> {
    if !is_derivation_path(path) {
        Err(ConfigurationError::InvalidDerivationPath)
    } else if !mnemonic_accepted(phrase) {
        Err(ConfigurationError::InvalidMnemonic)
    } else {
        match derived_secret(phrase, path) {
            Some(secret) => match secp256k1_address(secret) {
                Some(address) => Ok((secret, address)),
                None => Err(ConfigurationError::KeyUnavailable),
            },
            None => Err(ConfigurationError::KeyUnavailable),
        }
    }
}

/// Whether `outcome` is what a derivation from `phrase` along `path`
/// returns: the key pair that the two stand for, or the error.
pub open spec fn derives(
    phrase: Seq<char>,
    path: Seq<char>,
    outcome: Result<SigningKeypair, ConfigurationError>,
) -> bool {
    match derivation(phrase, path) {
        Ok((secret, address)) => {
            &&& outcome matches Ok(keypair)
            &&& keypair.secret_key() == secret
            &&& keypair.address_bytes() == address
        },
        Err(error) => outcome == Err::<SigningKeypair, ConfigurationError>(error),
    }
}

/// Derives the signing key pair from a mnemonic phrase along a derivation
/// path. The same phrase and path always give the same outcome.
pub fn derive_keypair(phrase: &str, path: &str) -> (outcome: Result<
    SigningKeypair,
    ConfigurationError,
>)
    ensures
        derives(phrase@, path@, outcome),
        outcome matches Ok(keypair) ==> keypair.wf(),
{
    if !check_derivation_path(path) {
        return Err(ConfigurationError::InvalidDerivationPath);
    }
    if !phrase_accepted(phrase) {
        return Err(ConfigurationError::InvalidMnemonic);
    }
    let secret = match mnemonic_secret(phrase, path) {
        Ok(secret) => secret,
        Err(_) => {
            return Err(ConfigurationError::KeyUnavailable);
        },
    };
    match wallet_address(&secret) {
        Ok(address) => Ok(SigningKeypair { secret, address }),
        Err(_) => Err(ConfigurationError::KeyUnavailable),
    }
}

/// Derivation is deterministic: two derivations from the same phrase along
/// the same path succeed together or fail with the same error, and where
/// they succeed they give the same secret key and the same address.
pub proof fn lemma_derivation_deterministic(
    phrase: Seq<char>,
    path: Seq<char>,
    first: Result<SigningKeypair, ConfigurationError>,
    second: Result<SigningKeypair, ConfigurationError>,
)
    requires
        derives(phrase, path, first),
        derives(phrase, path, second),
    ensures
        first is Ok <==> second is Ok,
        first is Err ==> first->Err_0 == second->Err_0,
        first is Ok ==> first->Ok_0.secret_key() == second->Ok_0.secret_key(),
        first is Ok ==> first->Ok_0.address_bytes() == second->Ok_0.address_bytes(),
{
}

} // verus!

//! Signing of message digests with the beacon's key.

use ethers_core::types::H256;
use ethers_signers::{LocalWallet, WalletError};
use vstd::prelude::*;
use crate::digest::{ethereum_message_hash, signed_message_digest};
use crate::error::SigningError;
use crate::keys::SigningKeypair;

verus! {

/// The width of a signature in bytes: `r` and `s` of 32 bytes each, and `v`.
pub const SIGNATURE_BYTES: usize = 65;

/// The 65 bytes `r`, `s`, `v` of the recoverable ECDSA signature of the
/// 32-byte `digest` under the secret key `secret`, as
/// `ethers_signers::LocalWallet::sign_hash` computes it, with `v` 27 or 28;
/// `None` where the key is rejected or signing fails. The nonce is derived
/// from key and digest, so the signature is a function of the two.
pub uninterp spec fn recoverable_signature(secret: Seq<u8>, digest: Seq<u8>) -> Option<Seq<u8>>;

/// Signs a digest with `LocalWallet::from_bytes` and `sign_hash`. Trusted:
/// the outcome is a function of key and digest alone, named
/// `recoverable_signature`.
#[verifier::external_body]
fn sign_prehash(secret: &[u8; 32], digest: &[u8; 32]) -> (outcome: Result<[u8; 65], WalletError>)
    ensures
        match outcome {
            Ok(signature) => recoverable_signature(secret@, digest@) == Some(signature@),
            Err(_) => recoverable_signature(secret@, digest@) is None,
        },
{
    Ok(LocalWallet::from_bytes(secret)?.sign_hash(H256(*digest))?.into())
}

/// Signs a 32-byte digest with the key pair.
pub fn sign_digest(keypair: &SigningKeypair, digest: &[u8; 32]) -> (outcome: Result<
    [u8; 65],
    SigningError,
>)
    ensures
        match outcome {
            Ok(signature) => recoverable_signature(keypair.secret_key(), digest@) == Some(
                signature@,
            ),
            Err(_) => recoverable_signature(keypair.secret_key(), digest@) is None,
        },
{
    match sign_prehash(keypair.secret(), digest) {
        Ok(signature) => Ok(signature),
        Err(_) => Err(SigningError),
    }
}

/// Signs a message: the signature is over the digest of the prefixed,
/// length-tagged message, never over the bare message.
pub fn sign_message(keypair: &SigningKeypair, message: &str) -> (outcome: Result<
    [u8; 65],
    SigningError,
>)
    ensures
        match outcome {
            Ok(signature) => recoverable_signature(
                keypair.secret_key(),
                signed_message_digest(message@),
            ) == Some(signature@),
            Err(_) => recoverable_signature(
                keypair.secret_key(),
                signed_message_digest(message@),
            ) is None,
        },
{
    let digest = ethereum_message_hash(message);
    sign_digest(keypair, &digest)
}

} // verus!

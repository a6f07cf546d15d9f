//! Entropy from the operating system's secure random source.

use rand::rngs::OsRng;
use rand::RngCore;
use vstd::prelude::*;
use crate::error::EntropySourceError;

verus! {

/// The width of an entropy sample in bytes.
pub const ENTROPY_BYTES: usize = 32;

/// `rand::Error`: what the random source reports when it fails. It is
/// carried through unread.
#[verifier::external_type_specification]
#[verifier::external_body]
pub struct ExRandError(rand::Error);

/// Fills 32 bytes from `rand::rngs::OsRng` with `try_fill_bytes`, which
/// reports a failure of the source instead of aborting. Nothing is claimed
/// of the bytes: they differ from call to call.
#[verifier::external_body]
fn os_random_bytes() -> (outcome: Result<[u8; 32], rand::Error>) {
    let mut sample = [0u8; 32];
    OsRng.try_fill_bytes(&mut sample)?;
    Ok(sample)
}

/// Draws a fresh entropy sample of 32 bytes from the operating system.
/// Where the source fails the failure is reported; weaker randomness is
/// never put in its place.
pub fn draw_entropy() -> (outcome: Result<[u8; 32], EntropySourceError>)
    ensures
        outcome matches Ok(sample) ==> sample@.len() == ENTROPY_BYTES,
{
    entropy_from(os_random_bytes())
}

/// What a draw from the random source means for the beacon: the sample as
/// it was drawn, or, whatever the source reports, the one error that says
/// that the source gave no bytes.
pub fn entropy_from(drawn: Result<[u8; 32], rand::Error>) -> (outcome: Result<
    [u8; 32],
    EntropySourceError,
>)
    ensures
        match drawn {
            Ok(sample) => outcome == Ok::<[u8; 32], EntropySourceError>(sample),
            Err(_) => outcome == Err::<[u8; 32], EntropySourceError>(EntropySourceError),
        },
{
    match drawn {
        Ok(sample) => Ok(sample),
        Err(_) => Err(EntropySourceError),
    }
}

} // verus!

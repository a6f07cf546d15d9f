//! The beacon: one attested random value per request.

use vstd::prelude::*;
use vstd::utf8::encode_utf8;
use crate::decimal::{be_value, decimal_chars, decimal_from_be_bytes, lemma_decimal_chars_value};
use crate::digest::{
    ethereum_message_hash, keccak256, lemma_prefix_bytes, signed_message_digest,
    signed_message_prefix_bytes,
};
use crate::entropy::{draw_entropy, ENTROPY_BYTES};
use crate::error::{BeaconError, ConfigurationError, SigningError};
use crate::digits::radix_value;
use crate::hex::{
    hex_chars, hex_encode, hex_encode_prefixed, lemma_hex_chars_value, prefixed_hex_chars,
};
use crate::keys::{
    derivation, derive_keypair, secp256k1_address, SigningKeypair, DERIVATION_PATH,
};
use crate::message::{build_message, canonical_message};
use crate::signing::{recoverable_signature, sign_message, SIGNATURE_BYTES};
use crate::timestamp::{rfc3339_utc_millis, Timestamp};

verus! {

/// What the service holds from startup on: the key pair and the text of the
/// signer identity. It is made once and only read afterwards.
pub struct AppState {
    keypair: SigningKeypair,
    signer: String,
}

impl AppState {
    /// The secret key of the key pair.
    pub closed spec fn secret_key(&self) -> Seq<u8> {
        self.keypair.secret_key()
    }

    /// The address of the key pair.
    pub closed spec fn address_bytes(&self) -> Seq<u8> {
        self.keypair.address_bytes()
    }

    /// The text of the signer identity.
    pub closed spec fn signer_text(&self) -> Seq<char> {
        self.signer@
    }

    /// The signer identity is the address of the key that signs, as `0x`
    /// and forty hexadecimal digits.
    #[verifier::type_invariant]
    pub open spec fn wf(&self) -> bool {
        &&& secp256k1_address(self.secret_key()) == Some(self.address_bytes())
        &&& self.signer_text() == prefixed_hex_chars(self.address_bytes())
    }

    /// The state for a key pair.
    pub fn new(keypair: SigningKeypair) -> (state: AppState)
        ensures
            state.wf(),
            state.secret_key() == keypair.secret_key(),
            state.address_bytes() == keypair.address_bytes(),
    {
        let signer = hex_encode_prefixed(keypair.address().as_slice());
        AppState { keypair, signer }
    }

    /// The state for the key pair derived from `phrase` along `path`: the
    /// one step of startup that can fail for want of a key.
    pub fn from_mnemonic(phrase: &str, path: &str) -> (outcome: Result<
        AppState,
        ConfigurationError,
    >)
        ensures
            starts_from(phrase@, path@, outcome),
    {
        match derive_keypair(phrase, path) {
            Ok(keypair) => Ok(AppState::new(keypair)),
            Err(error) => Err(error),
        }
    }

    /// Starts from the setting of the mnemonic: without one there is no
    /// key and no service; with one, the key is derived along the fixed
    /// derivation path.
    pub fn start(mnemonic: Option<&str>) -> (outcome: Result<AppState, ConfigurationError>)
        ensures
            match mnemonic {
                Some(phrase) => starts_from(phrase@, DERIVATION_PATH@, outcome),
                None => outcome == Err::<AppState, ConfigurationError>(
                    ConfigurationError::MissingMnemonic,
                ),
            },
    {
        match mnemonic {
            Some(phrase) => AppState::from_mnemonic(phrase, DERIVATION_PATH),
            None => Err(ConfigurationError::MissingMnemonic),
        }
    }

    /// The signer identity: the address of the signing key as text.
    pub fn signer(&self) -> (signer: &str)
        ensures
            signer@ == self.signer_text(),
            self.wf(),
    {
        proof {
            use_type_invariant(self);
        }
        self.signer.as_str()
    }
}

/// Whether `outcome` is what startup from `phrase` along `path` returns:
/// the state of the key pair that the two stand for, or the error of the
/// derivation.
pub open spec fn starts_from(
    phrase: Seq<char>,
    path: Seq<char>,
    outcome: Result<AppState, ConfigurationError>,
) -> bool {
    match derivation(phrase, path) {
        Ok((secret, address)) => {
            &&& outcome matches Ok(state)
            &&& state.wf()
            &&& state.secret_key() == secret
            &&& state.address_bytes() == address
        },
        Err(error) => outcome == Err::<AppState, ConfigurationError>(error),
    }
}

/// Startup is deterministic: from the same phrase along the same path it
/// succeeds or fails every time alike, and where it succeeds it gives the
/// same key, the same address and the same signer identity.
pub proof fn lemma_startup_deterministic(
    phrase: Seq<char>,
    path: Seq<char>,
    first: Result<AppState, ConfigurationError>,
    second: Result<AppState, ConfigurationError>,
)
    requires
        starts_from(phrase, path, first),
        starts_from(phrase, path, second),
    ensures
        first is Ok <==> second is Ok,
        first is Err ==> first->Err_0 == second->Err_0,
        first is Ok ==> {
            &&& first->Ok_0.secret_key() == second->Ok_0.secret_key()
            &&& first->Ok_0.address_bytes() == second->Ok_0.address_bytes()
            &&& first->Ok_0.signer_text() == second->Ok_0.signer_text()
        },
{
}

/// One attestation: a random value, the time, and a signature that binds
/// the two to the signer.
#[derive(Debug, PartialEq, Eq)]
pub struct BeaconResponse {
    /// The random value: `0x` and 64 lowercase hexadecimal digits.
    pub random_number: String,
    /// The same value as a decimal number. It is not part of the message.
    pub random_number_decimal: String,
    /// The time of the beacon, to the millisecond, in UTC.
    pub timestamp: String,
    /// The canonical message that was signed.
    pub message: String,
    /// The digest of the message: `0x` and 64 hexadecimal digits.
    pub message_hash: String,
    /// The signature over the digest: 130 hexadecimal digits.
    pub signature: String,
    /// The signer identity.
    pub signer: String,
}

/// The texts of a response.
pub struct BeaconResponseView {
    pub random_number: Seq<char>,
    pub random_number_decimal: Seq<char>,
    pub timestamp: Seq<char>,
    pub message: Seq<char>,
    pub message_hash: Seq<char>,
    pub signature: Seq<char>,
    pub signer: Seq<char>,
}

impl View for BeaconResponse {
    type V = BeaconResponseView;

    open spec fn view(&self) -> BeaconResponseView {
        BeaconResponseView {
            random_number: self.random_number@,
            random_number_decimal: self.random_number_decimal@,
            timestamp: self.timestamp@,
            message: self.message@,
            message_hash: self.message_hash@,
            signature: self.signature@,
            signer: self.signer@,
        }
    }
}

/// The response for an entropy sample, a timestamp text and the signature
/// bytes: every field follows from these and the signer identity.
pub open spec fn attested_response(
    signer: Seq<char>,
    entropy: Seq<u8>,
    timestamp: Seq<char>,
    signature: Seq<u8>,
) -> BeaconResponseView {
    let random_number = prefixed_hex_chars(entropy);
    let message = canonical_message(random_number, timestamp);
    BeaconResponseView {
        random_number,
        random_number_decimal: decimal_chars(be_value(entropy)),
        timestamp,
        message,
        message_hash: prefixed_hex_chars(signed_message_digest(message)),
        signature: hex_chars(signature),
        signer,
    }
}

/// The message that is signed for an entropy sample and a timestamp text.
pub open spec fn beacon_message(entropy: Seq<u8>, timestamp: Seq<char>) -> Seq<char> {
    canonical_message(prefixed_hex_chars(entropy), timestamp)
}

/// Whether `response` attests `entropy` at `timestamp` for the signer of
/// `state`: its signature is the one of the state's key over the digest of
/// the message, and every field follows from the sample and the timestamp.
pub open spec fn attests(
    state: AppState,
    entropy: Seq<u8>,
    timestamp: Seq<char>,
    response: BeaconResponseView,
) -> bool {
    &&& recoverable_signature(
        state.secret_key(),
        signed_message_digest(beacon_message(entropy, timestamp)),
    ) matches Some(signature)
    &&& signature.len() == SIGNATURE_BYTES
    &&& response == attested_response(state.signer_text(), entropy, timestamp, signature)
}

/// Assembles the response for an entropy sample, a timestamp and the
/// signature over the digest of their message.
pub fn assemble_response(
    signer: &str,
    entropy: &[u8; 32],
    timestamp: &str,
    signature: &[u8; 65],
) -> (response: BeaconResponse)
    ensures
        response@ == attested_response(signer@, entropy@, timestamp@, signature@),
{
    let random_number = hex_encode_prefixed(entropy.as_slice());
    let random_number_decimal = decimal_from_be_bytes(entropy.as_slice());
    let message = build_message(random_number.as_str(), timestamp);
    let digest = ethereum_message_hash(message.as_str());
    BeaconResponse {
        random_number,
        random_number_decimal,
        timestamp: timestamp.to_owned(),
        message,
        message_hash: hex_encode_prefixed(digest.as_slice()),
        signature: hex_encode(signature.as_slice()),
        signer: signer.to_owned(),
    }
}

/// Attests an entropy sample at a timestamp: builds the message, signs its
/// digest and assembles the response. It fails only where signing fails.
pub fn attest(state: &AppState, entropy: &[u8; 32], timestamp: &Timestamp) -> (outcome: Result<
    BeaconResponse,
    SigningError,
>)
    ensures
        match outcome {
            Ok(response) => attests(*state, entropy@, timestamp.text(), response@),
            Err(_) => recoverable_signature(
                state.secret_key(),
                signed_message_digest(beacon_message(entropy@, timestamp.text())),
            ) is None,
        },
{
    let random_number = hex_encode_prefixed(entropy.as_slice());
    let message = build_message(random_number.as_str(), timestamp.as_str());
    match sign_message(&state.keypair, message.as_str()) {
        Ok(signature) => Ok(
            assemble_response(state.signer(), entropy, timestamp.as_str(), &signature),
        ),
        Err(error) => Err(error),
    }
}

/// Whether `response` is a beacon of the signer of `state`: it attests some
/// entropy sample of 32 bytes at some instant of millisecond precision.
pub open spec fn is_beacon(state: AppState, response: BeaconResponseView) -> bool {
    exists|entropy: Seq<u8>, unix_millis: int|
        #![trigger attests(state, entropy, rfc3339_utc_millis(unix_millis)->0, response)]
        {
            &&& entropy.len() == ENTROPY_BYTES
            &&& rfc3339_utc_millis(unix_millis) is Some
            &&& attests(state, entropy, rfc3339_utc_millis(unix_millis)->0, response)
        }
}

/// Whether the key of `state` gives no signature for the message of some
/// entropy sample of 32 bytes at some instant of millisecond precision.
pub open spec fn signing_fails(state: AppState) -> bool {
    exists|entropy: Seq<u8>, unix_millis: int|
        #![trigger beacon_message(entropy, rfc3339_utc_millis(unix_millis)->0)]
        {
            &&& entropy.len() == ENTROPY_BYTES
            &&& rfc3339_utc_millis(unix_millis) is Some
            &&& recoverable_signature(
                state.secret_key(),
                signed_message_digest(
                    beacon_message(entropy, rfc3339_utc_millis(unix_millis)->0),
                ),
            ) is None
        }
}

/// Serves one request: draws fresh entropy, reads the clock and attests
/// the two. Which sample and which instant a response attests is for the
/// random source and the clock to say. A failure of the random source is
/// reported as such and nothing is signed; a signing error is reported
/// only where signing failed for what was observed.
pub fn random_beacon(state: &AppState) -> (outcome: Result<BeaconResponse, BeaconError>)
    ensures
        outcome matches Ok(response) ==> is_beacon(*state, response@),
        outcome matches Err(BeaconError::Signing(_)) ==> signing_fails(*state),
{
    let entropy = match draw_entropy() {
        Ok(sample) => sample,
        Err(error) => {
            return Err(BeaconError::Entropy(error));
        },
    };
    let timestamp = Timestamp::now();
    let ghost text = rfc3339_utc_millis(timestamp.millis())->0;
    match attest(state, &entropy, &timestamp) {
        Ok(response) => {
            assert(attests(*state, entropy@, text, response@));
            Ok(response)
        },
        Err(error) => {
            assert(beacon_message(entropy@, text) == beacon_message(entropy@, timestamp.text()));
            Err(BeaconError::Signing(error))
        },
    }
}

/// In every beacon the decimal form and the hexadecimal form of the random
/// value spell the same number: the hexadecimal digits behind `0x`, read in
/// base sixteen, give what the decimal digits give in base ten.
pub proof fn lemma_decimal_is_value_of_hex(state: AppState, response: BeaconResponseView)
    requires
        is_beacon(state, response),
    ensures
        response.random_number.len() == 2 + 2 * ENTROPY_BYTES,
        response.random_number.subrange(0, 2) == seq!['0', 'x'],
        radix_value(response.random_number_decimal, 10) == radix_value(
            response.random_number.skip(2),
            16,
        ),
{
    let (entropy, unix_millis) = choose|entropy: Seq<u8>, unix_millis: int|
        {
            &&& entropy.len() == ENTROPY_BYTES
            &&& rfc3339_utc_millis(unix_millis) is Some
            &&& #[trigger] attests(state, entropy, rfc3339_utc_millis(unix_millis)->0, response)
        };
    lemma_hex_chars_value(entropy);
    lemma_decimal_chars_value(be_value(entropy));
    assert(response.random_number.skip(2) =~= hex_chars(entropy));
}

/// In every beacon the digest can be recomputed from the message alone,
/// byte for byte: hash the 26 bytes of the fixed prefix, the byte length of
/// the message as decimal digits and the bytes of the message, and render
/// the digest in hexadecimal behind `0x`.
pub proof fn lemma_digest_recomputable(state: AppState, response: BeaconResponseView)
    requires
        is_beacon(state, response),
    ensures
        response.message_hash == prefixed_hex_chars(
            keccak256(
                signed_message_prefix_bytes() + encode_utf8(
                    decimal_chars(encode_utf8(response.message).len()),
                ) + encode_utf8(response.message),
            ),
        ),
{
    lemma_prefix_bytes();
}

/// In every beacon the message holds the random value and the timestamp of
/// that same beacon behind the tag, and nothing else.
pub proof fn lemma_message_coherent(state: AppState, response: BeaconResponseView)
    requires
        is_beacon(state, response),
    ensures
        response.message == canonical_message(response.random_number, response.timestamp),
        exists|unix_millis: int| #[trigger]
            rfc3339_utc_millis(unix_millis) == Some(response.timestamp),
{
    let (entropy, unix_millis) = choose|entropy: Seq<u8>, unix_millis: int|
        {
            &&& entropy.len() == ENTROPY_BYTES
            &&& rfc3339_utc_millis(unix_millis) is Some
            &&& #[trigger] attests(state, entropy, rfc3339_utc_millis(unix_millis)->0, response)
        };
}

/// In every beacon the signature binds the returned signer to the returned
/// message: the signer is the address of the key of the state, and the
/// signature is the one of that key over the digest of the message. That
/// such a signature passes ECDSA recovery is the signing primitive's to
/// keep; it is not restated here.
pub proof fn lemma_signature_binds_signer_and_message(
    state: AppState,
    response: BeaconResponseView,
)
    requires
        state.wf(),
        is_beacon(state, response),
    ensures
        response.signer == state.signer_text(),
        secp256k1_address(state.secret_key()) matches Some(address) && response.signer
            == prefixed_hex_chars(address),
        recoverable_signature(
            state.secret_key(),
            signed_message_digest(response.message),
        ) matches Some(signature) && response.signature == hex_chars(signature)
            && response.signature.len() == 2 * SIGNATURE_BYTES,
{
}

} // verus!

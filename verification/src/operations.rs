//! Key generation, public-key derivation, signing and verification.
//!
//! Each operation checks its handles and then says what the curve primitive
//! is to compute: a request that carries the operands. The caller runs the
//! primitive on them and hands its answer back: bytes become a handle
//! through `secret_key_handle`, `public_key_handle` or `signature_handle`,
//! and a verdict becomes a status through `verification_status`. A null
//! handle yields no request, so that nothing is computed and nothing is
//! allocated for a malformed call.

use vstd::prelude::*;
use rand::rngs::ThreadRng;
use crate::keys::{BLSPublicKey, BLSSecretKey, BLSSignature};
use crate::message::{exposed_message, Message};
use crate::status::BLS_ERROR_INVALID_INPUT;

verus! {

/// A request for a fresh secret scalar.
pub struct KeyGeneration {
    /// The generator that the scalar is drawn from.
    pub generator: ThreadRng,
}

/// A request for the public point of a secret scalar.
pub struct Derivation<'a> {
    /// The scalar, lent by the caller's handle.
    pub secret_key: &'a BLSSecretKey,
}

/// A request for a signature.
pub struct Signing<'a> {
    /// The scalar that signs, lent by the caller's handle.
    pub secret_key: &'a BLSSecretKey,
    /// What is signed.
    pub message: Message,
    /// The generator that signing draws from.
    pub generator: ThreadRng,
}

/// A request for the pairing check of a signature.
pub struct Verification<'a> {
    /// The signature under test, lent by the caller's handle.
    pub signature: &'a BLSSignature,
    /// What the signature is claimed to sign.
    pub message: Message,
    /// The key it is checked against, lent by the caller's handle.
    pub public_key: &'a BLSPublicKey,
}

/// Starts the generation of a secret key: the scalar is to be drawn from
/// the secure generator of the calling thread. There is no input and so no
/// invalid input.
pub fn bls_generate_secret_key() -> (request: KeyGeneration) {
    KeyGeneration { generator: rand::thread_rng() }
}

/// Starts the derivation of a public key. A null handle is refused; any
/// other handle is lent on to the primitive unchanged and stays with the
/// caller.
pub fn bls_get_public_key<'a>(secret_key: Option<&'a BLSSecretKey>) -> (request: Option<
    Derivation<'a>,
>)
    ensures
        request is None <==> secret_key is None,
        request is Some ==> request->Some_0.secret_key == secret_key->Some_0,
{
    match secret_key {
        None => None,
        Some(key) => Some(Derivation { secret_key: key }),
    }
}

/// Starts a signature over a payload. If the key or the payload is null the
/// call is refused and no randomness is asked for; otherwise the primitive
/// is to sign the payload under the empty tag with the caller's key.
pub fn bls_sign<'a>(secret_key: Option<&'a BLSSecretKey>, message: Option<&[u8]>) -> (request:
    Option<Signing<'a>>)
    ensures
        request is None <==> (secret_key is None || message is None),
        request is Some ==> {
            &&& request->Some_0.secret_key == secret_key->Some_0
            &&& request->Some_0.message@ == exposed_message(message->Some_0@)
        },
{
    match (secret_key, message) {
        (Some(key), Some(payload)) => {
            Some(
                Signing {
                    secret_key: key,
                    message: Message::untagged(payload),
                    generator: rand::thread_rng(),
                },
            )
        },
        _ => None,
    }
}

/// Starts the verification of a signature over a payload. If any of the
/// three is null the call ends here with the invalid-input status;
/// otherwise the primitive is to check the signature against the payload
/// under the empty tag and the given key, and `verification_status` turns
/// its verdict into the status.
pub fn bls_verify_signature<'a>(
    signature: Option<&'a BLSSignature>,
    message: Option<&[u8]>,
    public_key: Option<&'a BLSPublicKey>,
) -> (request: Result<Verification<'a>, i32>)
    ensures
        request is Err <==> (signature is None || message is None || public_key is None),
        request is Err ==> request->Err_0 == BLS_ERROR_INVALID_INPUT,
        request is Ok ==> {
            &&& request->Ok_0.signature == signature->Some_0
            &&& request->Ok_0.message@ == exposed_message(message->Some_0@)
            &&& request->Ok_0.public_key == public_key->Some_0
        },
{
    match (signature, message, public_key) {
        (Some(point), Some(payload), Some(key)) => {
            Ok(
                Verification {
                    signature: point,
                    message: Message::untagged(payload),
                    public_key: key,
                },
            )
        },
        _ => Err(BLS_ERROR_INVALID_INPUT),
    }
}

} // verus!

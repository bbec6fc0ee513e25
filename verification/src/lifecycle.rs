//! Creation and release of what the caller owns.
//!
//! A handle is an owned, heap-allocated value or null; as `Option<Box<T>>`
//! it has the layout of a nullable pointer. A handle is created from the
//! bytes that the curve primitive returned, lent to the operations that read
//! it, and released by the operation for its kind. Releasing takes the
//! handle by value, so the caller cannot use it again, and a handle cannot
//! be released twice.

use vstd::prelude::*;
use crate::keys::{BLSPublicKey, BLSSecretKey, BLSSignature};
use crate::status::{BLS_ERROR_INVALID_INPUT, BLS_SUCCESS};

verus! {

/// The owning handle of a secret key, or null.
pub type SecretKeyHandle = Option<Box<BLSSecretKey>>;

/// The owning handle of a public key, or null.
pub type PublicKeyHandle = Option<Box<BLSPublicKey>>;

/// The owning handle of a signature, or null.
pub type SignatureHandle = Option<Box<BLSSignature>>;

/// The owning handle of a text, or null.
pub type TextHandle = Option<String>;

/// Wraps the scalar that key generation produced into a new handle, which
/// the caller owns from here on. The handle is never null.
pub fn secret_key_handle(scalar: Vec<u8>) -> (handle: SecretKeyHandle)
    ensures
        handle is Some,
        handle->Some_0@ == scalar@,
{
    Some(Box::new(BLSSecretKey::from_bytes(scalar)))
}

/// Wraps the point that derivation produced into a new handle, which the
/// caller owns from here on. The handle is never null.
pub fn public_key_handle(point: Vec<u8>) -> (handle: PublicKeyHandle)
    ensures
        handle is Some,
        handle->Some_0@ == point@,
{
    Some(Box::new(BLSPublicKey::from_bytes(point)))
}

/// Wraps the point that signing produced into a new handle, which the
/// caller owns from here on. The handle is never null.
pub fn signature_handle(point: Vec<u8>) -> (handle: SignatureHandle)
    ensures
        handle is Some,
        handle->Some_0@ == point@,
{
    Some(Box::new(BLSSignature::from_bytes(point)))
}

/// The status of a release: invalid input for a null handle, for which
/// there is nothing to reclaim, and success for any other.
pub open spec fn status_of_release<T>(handle: Option<T>) -> i32 {
    if handle is None {
        BLS_ERROR_INVALID_INPUT
    } else {
        BLS_SUCCESS
    }
}

/// Releases a public key. A null handle is refused and nothing is
/// reclaimed; any other handle is reclaimed.
pub fn bls_free_public_key(public_key: PublicKeyHandle) -> (status: i32)
    ensures
        status == status_of_release(public_key),
        public_key is None <==> status == BLS_ERROR_INVALID_INPUT,
        public_key is Some <==> status == BLS_SUCCESS,
{
    match public_key {
        None => BLS_ERROR_INVALID_INPUT,
        Some(_owned) => BLS_SUCCESS,
    }
}

/// Releases a secret key. A null handle is refused and nothing is
/// reclaimed; any other handle is reclaimed.
pub fn bls_free_secret_key(secret_key: SecretKeyHandle) -> (status: i32)
    ensures
        status == status_of_release(secret_key),
        secret_key is None <==> status == BLS_ERROR_INVALID_INPUT,
        secret_key is Some <==> status == BLS_SUCCESS,
{
    match secret_key {
        None => BLS_ERROR_INVALID_INPUT,
        Some(_owned) => BLS_SUCCESS,
    }
}

/// Releases a signature. A null handle is refused and nothing is
/// reclaimed; any other handle is reclaimed.
pub fn bls_free_signature(signature: SignatureHandle) -> (status: i32)
    ensures
        status == status_of_release(signature),
        signature is None <==> status == BLS_ERROR_INVALID_INPUT,
        signature is Some <==> status == BLS_SUCCESS,
{
    match signature {
        None => BLS_ERROR_INVALID_INPUT,
        Some(_owned) => BLS_SUCCESS,
    }
}

/// Releases a text that a serialization or the statistics probe returned.
/// A null text is refused and nothing is reclaimed; any other text is
/// reclaimed.
pub fn bls_free_string(s: TextHandle) -> (status: i32)
    ensures
        status == status_of_release(s),
        s is None <==> status == BLS_ERROR_INVALID_INPUT,
        s is Some <==> status == BLS_SUCCESS,
{
    match s {
        None => BLS_ERROR_INVALID_INPUT,
        Some(_owned) => BLS_SUCCESS,
    }
}

/// Releasing a null handle always reports invalid input, and releasing any
/// other handle never does, whatever the kind of the handle.
pub proof fn lemma_null_release_is_invalid_input<T>(handle: Option<T>)
    ensures
        handle is None <==> status_of_release(handle) == BLS_ERROR_INVALID_INPUT,
        handle is Some <==> status_of_release(handle) == BLS_SUCCESS,
{
}

} // verus!

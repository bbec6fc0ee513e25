//! Boundary layer for BLS signatures.
//!
//! The crate holds everything a flat, pointer-based function table needs to
//! decide on its own: which handles are acceptable, what is asked of the
//! pairing-curve primitive, how its answers become status codes and new
//! handles, and how keys and signatures are rendered as text. The curve
//! arithmetic itself is performed by the caller of this crate, between a
//! request handed out here and the value it hands back.

pub mod diagnostics;
pub mod encoding;
pub mod generator;
pub mod keys;
pub mod lifecycle;
pub mod message;
pub mod operations;
pub mod serialization;
pub mod status;

pub use diagnostics::{bls_get_memory_stats, bls_is_null};
pub use keys::{BLSKeypair, BLSPublicKey, BLSSecretKey, BLSSignature};
pub use lifecycle::{
    bls_free_public_key, bls_free_secret_key, bls_free_signature, bls_free_string,
    public_key_handle, secret_key_handle, signature_handle, PublicKeyHandle, SecretKeyHandle,
    SignatureHandle, TextHandle,
};
pub use message::Message;
pub use operations::{
    bls_generate_secret_key, bls_get_public_key, bls_sign, bls_verify_signature, Derivation,
    KeyGeneration, Signing, Verification,
};
pub use serialization::{
    bls_public_key_to_string, bls_secret_key_to_string, bls_signature_to_string,
};
pub use status::{
    verification_status, BLS_ERROR_INVALID_INPUT, BLS_ERROR_MEMORY_ALLOCATION_FAILED,
    BLS_ERROR_MEMORY_DEALLOCATION_FAILED, BLS_ERROR_SIGNATURE_VERIFICATION_FAILED, BLS_SUCCESS,
};

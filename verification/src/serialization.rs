//! Keys and signatures as text: the lowercase hexadecimal form of their
//! bytes. There is no way back from text to a handle.

use vstd::prelude::*;
use crate::encoding::{hex_string, is_lower_hex_char, to_hex};
use crate::keys::{BLSPublicKey, BLSSecretKey, BLSSignature};
use crate::lifecycle::TextHandle;

verus! {

/// Renders a public key as text. A null handle gives no text; any other
/// handle gives the hexadecimal form of the key's bytes, twice as long as
/// they are. The handle stays with the caller; the text is the caller's to
/// release.
pub fn bls_public_key_to_string(public_key: Option<&BLSPublicKey>) -> (text: TextHandle)
    ensures
        text is None <==> public_key is None,
        text is Some ==> {
            &&& text->Some_0@ == hex_string(public_key->Some_0@)
            &&& text->Some_0@.len() == 2 * public_key->Some_0@.len()
            &&& forall|i: int|
                0 <= i < text->Some_0@.len() ==> is_lower_hex_char(#[trigger] text->Some_0@[i])
        },
{
    match public_key {
        None => None,
        Some(key) => Some(to_hex(key.as_bytes())),
    }
}

/// Renders a secret key as text, on the same terms as a public key. The
/// secret leaves its handle only because the caller asked for it here.
pub fn bls_secret_key_to_string(secret_key: Option<&BLSSecretKey>) -> (text: TextHandle)
    ensures
        text is None <==> secret_key is None,
        text is Some ==> {
            &&& text->Some_0@ == hex_string(secret_key->Some_0@)
            &&& text->Some_0@.len() == 2 * secret_key->Some_0@.len()
            &&& forall|i: int|
                0 <= i < text->Some_0@.len() ==> is_lower_hex_char(#[trigger] text->Some_0@[i])
        },
{
    match secret_key {
        None => None,
        Some(key) => Some(to_hex(key.as_bytes())),
    }
}

/// Renders a signature as text, on the same terms as a public key.
pub fn bls_signature_to_string(signature: Option<&BLSSignature>) -> (text: TextHandle)
    ensures
        text is None <==> signature is None,
        text is Some ==> {
            &&& text->Some_0@ == hex_string(signature->Some_0@)
            &&& text->Some_0@.len() == 2 * signature->Some_0@.len()
            &&& forall|i: int|
                0 <= i < text->Some_0@.len() ==> is_lower_hex_char(#[trigger] text->Some_0@[i])
        },
{
    match signature {
        None => None,
        Some(point) => Some(to_hex(point.as_bytes())),
    }
}

} // verus!

use bls_boundary::{
    bls_free_public_key, bls_free_secret_key, bls_free_signature, bls_free_string,
    bls_generate_secret_key, bls_get_public_key, bls_public_key_to_string,
    bls_secret_key_to_string, bls_sign, bls_signature_to_string, bls_verify_signature,
    public_key_handle, secret_key_handle, signature_handle, verification_status, BLSPublicKey,
    BLSSecretKey, BLSSignature, Message, PublicKeyHandle, SecretKeyHandle, SignatureHandle,
};
use rand::rngs::ThreadRng;
use rand::RngCore;

// A stand-in for the curve primitive, good enough to drive the function
// table end to end: the public key is the secret key under a fixed mask, and
// a signature is a keyed checksum of tag and payload.

const MASK: u8 = 0x5a;

fn toy_generate(mut generator: ThreadRng) -> Vec<u8> {
    let mut scalar = vec![0u8; 32];
    generator.fill_bytes(&mut scalar);
    scalar
}

fn toy_derive(secret_key: &[u8]) -> Vec<u8> {
    secret_key.iter().map(|byte| byte ^ MASK).collect()
}

fn toy_checksum(secret_key: &[u8], message: &Message) -> Vec<u8> {
    let mut state: u64 = 0xcbf2_9ce4_8422_2325;
    let length = message.context().len() as u64;
    let parts = [secret_key, &length.to_le_bytes()[..], message.context(), message.payload()];
    for part in parts {
        for byte in part {
            state ^= u64::from(*byte);
            state = state.wrapping_mul(0x0000_0100_0000_01b3);
        }
    }
    state.to_le_bytes().to_vec()
}

fn toy_sign(secret_key: &[u8], message: &Message, mut generator: ThreadRng) -> Vec<u8> {
    let mut blinding = [0u8; 8];
    generator.fill_bytes(&mut blinding);
    toy_checksum(secret_key, message)
}

fn toy_verify(signature: &[u8], message: &Message, public_key: &[u8]) -> bool {
    signature == toy_checksum(&toy_derive(public_key), message).as_slice()
}

// The function table as a caller sees it, with the stand-in in the place of
// the primitive.

fn generate() -> SecretKeyHandle {
    let request = bls_generate_secret_key();
    secret_key_handle(toy_generate(request.generator))
}

fn derive(secret_key: Option<&BLSSecretKey>) -> PublicKeyHandle {
    let request = bls_get_public_key(secret_key)?;
    public_key_handle(toy_derive(request.secret_key.as_bytes()))
}

fn sign(secret_key: Option<&BLSSecretKey>, payload: Option<&[u8]>) -> SignatureHandle {
    let request = bls_sign(secret_key, payload)?;
    let point = toy_sign(request.secret_key.as_bytes(), &request.message, request.generator);
    signature_handle(point)
}

fn verify(
    signature: Option<&BLSSignature>,
    payload: Option<&[u8]>,
    public_key: Option<&BLSPublicKey>,
) -> i32 {
    match bls_verify_signature(signature, payload, public_key) {
        Err(status) => status,
        Ok(request) => verification_status(toy_verify(
            request.signature.as_bytes(),
            &request.message,
            request.public_key.as_bytes(),
        )),
    }
}

#[test]
fn sign_then_verify_succeeds() {
    let sk1 = generate();
    let pk1 = derive(sk1.as_deref());
    let sig = sign(sk1.as_deref(), Some(b"hello"));
    assert!(sk1.is_some() && pk1.is_some() && sig.is_some());
    assert_eq!(verify(sig.as_deref(), Some(b"hello"), pk1.as_deref()), 0);
}

#[test]
fn changed_payload_fails_verification() {
    let sk1 = generate();
    let pk1 = derive(sk1.as_deref());
    let sig = sign(sk1.as_deref(), Some(b"hello"));
    assert_eq!(verify(sig.as_deref(), Some(b"hello!"), pk1.as_deref()), -2);
}

#[test]
fn every_flipped_byte_fails_verification_and_is_not_invalid_input() {
    let sk1 = generate();
    let pk1 = derive(sk1.as_deref());
    let payload = b"hello".to_vec();
    let sig = sign(sk1.as_deref(), Some(&payload));
    for position in 0..payload.len() {
        let mut flipped = payload.clone();
        flipped[position] ^= 0xff;
        assert_eq!(verify(sig.as_deref(), Some(&flipped), pk1.as_deref()), -2);
    }
}

#[test]
fn another_key_fails_verification() {
    let sk1 = generate();
    let sig = sign(sk1.as_deref(), Some(b"hello"));
    let other = derive(generate().as_deref());
    assert_eq!(verify(sig.as_deref(), Some(b"hello"), other.as_deref()), -2);
}

#[test]
fn null_handles_are_invalid_input() {
    let sk1 = generate();
    let pk1 = derive(sk1.as_deref());
    assert_eq!(verify(None, Some(b"hello"), pk1.as_deref()), -1);
    assert!(sign(None, Some(b"hello")).is_none());
    assert!(derive(None).is_none());
}

#[test]
fn deriving_twice_gives_identical_serializations() {
    let sk1 = generate();
    let first = derive(sk1.as_deref());
    let second = derive(sk1.as_deref());
    let first_text = bls_public_key_to_string(first.as_deref());
    let second_text = bls_public_key_to_string(second.as_deref());
    assert!(first_text.is_some());
    assert_eq!(first_text, second_text);
}

#[test]
fn public_key_outlives_its_secret_key() {
    let sk1 = generate();
    let pk1 = derive(sk1.as_deref());
    let sig = sign(sk1.as_deref(), Some(b"hello"));
    assert_eq!(bls_free_secret_key(sk1), 0);
    assert_eq!(verify(sig.as_deref(), Some(b"hello"), pk1.as_deref()), 0);
    assert_eq!(bls_free_signature(sig), 0);
    assert_eq!(bls_free_public_key(pk1), 0);
}

#[test]
fn signing_leaves_the_secret_key_unchanged() {
    let sk1 = generate();
    let before = bls_secret_key_to_string(sk1.as_deref());
    let first = sign(sk1.as_deref(), Some(b"hello"));
    let second = sign(sk1.as_deref(), Some(b"hello"));
    let after = bls_secret_key_to_string(sk1.as_deref());
    assert_eq!(before, after);
    let pk1 = derive(sk1.as_deref());
    assert_eq!(verify(first.as_deref(), Some(b"hello"), pk1.as_deref()), 0);
    assert_eq!(verify(second.as_deref(), Some(b"hello"), pk1.as_deref()), 0);
}

#[test]
fn secret_key_text_decodes_to_a_key_with_the_same_public_key() {
    let sk1 = generate();
    let pk1 = derive(sk1.as_deref());
    let text = bls_secret_key_to_string(sk1.as_deref()).unwrap();
    let decoded = BLSSecretKey::from_bytes(hex::decode(&text).unwrap());
    assert_eq!(decoded.as_bytes(), sk1.as_deref().unwrap().as_bytes());
    let again = derive(Some(&decoded));
    assert_eq!(
        bls_public_key_to_string(again.as_deref()),
        bls_public_key_to_string(pk1.as_deref()),
    );
    assert_eq!(bls_free_string(Some(text)), 0);
}

#[test]
fn serialized_values_have_twice_their_byte_length() {
    let sk1 = generate();
    let pk1 = derive(sk1.as_deref());
    let sig = sign(sk1.as_deref(), Some(b"hello"));
    let secret_text = bls_secret_key_to_string(sk1.as_deref()).unwrap();
    let public_text = bls_public_key_to_string(pk1.as_deref()).unwrap();
    let signature_text = bls_signature_to_string(sig.as_deref()).unwrap();
    assert_eq!(secret_text.len(), 2 * sk1.as_deref().unwrap().as_bytes().len());
    assert_eq!(public_text.len(), 2 * pk1.as_deref().unwrap().as_bytes().len());
    assert_eq!(signature_text.len(), 2 * sig.as_deref().unwrap().as_bytes().len());
}

#[test]
fn a_tag_changes_what_is_signed() {
    let sk1 = generate();
    let scalar = sk1.as_deref().unwrap().as_bytes();
    let untagged = toy_checksum(scalar, &Message::untagged(b"hello"));
    let tagged = toy_checksum(scalar, &Message::new(b"app", b"hello"));
    assert_ne!(untagged, tagged);
}

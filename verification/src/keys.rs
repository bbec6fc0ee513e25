//! The values behind the handles. Each holds the byte representation of one
//! domain object, exactly as the curve primitive gave it, and nothing else;
//! the layout is private, so that callers can hold such a value only as a
//! whole.

use vstd::prelude::*;

verus! {

/// A secret scalar of the signing curve.
///
/// The type offers no copy and no printed form: the bytes leave it only
/// through `as_bytes` or an explicit serialization.
pub struct BLSSecretKey {
    secret_key: Vec<u8>,
}

/// A public curve point, derived from a secret scalar.
pub struct BLSPublicKey {
    public_key: Vec<u8>,
}

/// A signature: the curve point that signing produced.
pub struct BLSSignature {
    signature: Vec<u8>,
}

/// A secret key bundled with the public key that belongs to it.
pub struct BLSKeypair {
    secret_key: BLSSecretKey,
    public_key: BLSPublicKey,
}

/// What a key pair is to a contract: the bytes of its two halves.
pub ghost struct KeypairView {
    pub secret_key: Seq<u8>,
    pub public_key: Seq<u8>,
}

impl View for BLSSecretKey {
    type V = Seq<u8>;

    closed spec fn view(&self) -> Seq<u8> {
        self.secret_key@
    }
}

impl View for BLSPublicKey {
    type V = Seq<u8>;

    closed spec fn view(&self) -> Seq<u8> {
        self.public_key@
    }
}

impl View for BLSSignature {
    type V = Seq<u8>;

    closed spec fn view(&self) -> Seq<u8> {
        self.signature@
    }
}

impl View for BLSKeypair {
    type V = KeypairView;

    closed spec fn view(&self) -> KeypairView {
        KeypairView { secret_key: self.secret_key@, public_key: self.public_key@ }
    }
}

impl BLSSecretKey {
    /// Takes ownership of the bytes of a scalar.
    pub fn from_bytes(bytes: Vec<u8>) -> (key: Self)
        ensures
            key@ == bytes@,
    {
        BLSSecretKey { secret_key: bytes }
    }

    /// The bytes of the scalar.
    pub fn as_bytes(&self) -> (bytes: &[u8])
        ensures
            bytes@ == self@,
    {
        self.secret_key.as_slice()
    }
}

impl BLSPublicKey {
    /// Takes ownership of the bytes of a public point.
    pub fn from_bytes(bytes: Vec<u8>) -> (key: Self)
        ensures
            key@ == bytes@,
    {
        BLSPublicKey { public_key: bytes }
    }

    /// The bytes of the point.
    pub fn as_bytes(&self) -> (bytes: &[u8])
        ensures
            bytes@ == self@,
    {
        self.public_key.as_slice()
    }
}

impl BLSSignature {
    /// Takes ownership of the bytes of a signature point.
    pub fn from_bytes(bytes: Vec<u8>) -> (signature: Self)
        ensures
            signature@ == bytes@,
    {
        BLSSignature { signature: bytes }
    }

    /// The bytes of the point.
    pub fn as_bytes(&self) -> (bytes: &[u8])
        ensures
            bytes@ == self@,
    {
        self.signature.as_slice()
    }
}

impl BLSKeypair {
    /// Bundles a secret key with its public key. Whether the second was
    /// derived from the first is for the curve primitive to say, not for
    /// this type.
    pub fn new(secret_key: BLSSecretKey, public_key: BLSPublicKey) -> (pair: Self)
        ensures
            pair@ == (KeypairView { secret_key: secret_key@, public_key: public_key@ }),
    {
        BLSKeypair { secret_key, public_key }
    }

    /// The secret half.
    pub fn secret_key(&self) -> (key: &BLSSecretKey)
        ensures
            key@ == self@.secret_key,
    {
        &self.secret_key
    }

    /// The public half.
    pub fn public_key(&self) -> (key: &BLSPublicKey)
        ensures
            key@ == self@.public_key,
    {
        &self.public_key
    }
}

} // verus!

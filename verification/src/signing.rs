//! Ed25519 keys and signatures, each held together with the bytes it was
//! decoded from.
//!
//! The fields of `VerifyingKey` and `SignatureBytes` are private to this
//! module, and the only code that builds either is its `from_bytes`, which
//! decodes the outside value from exactly the bytes it keeps. So the view of a
//! value (its bytes) is always the encoding of the key or signature inside it,
//! and a verification can be stated over those bytes.

use vstd::prelude::*;
use ed25519_dalek::Verifier;

verus! {

#[verifier::external_type_specification]
#[verifier::external_body]
pub struct ExPublicKey(ed25519_dalek::PublicKey);

#[verifier::external_type_specification]
#[verifier::external_body]
pub struct ExSignature(ed25519_dalek::Signature);

/// Whether the 32 bytes `encoded` decompress to a point of the Edwards curve,
/// the check that `ed25519_dalek::PublicKey::from_bytes` makes after the length.
pub uninterp spec fn ed25519_point_decompresses(encoded: Seq<u8>) -> bool;

/// Whether Ed25519 verification (`Verifier::verify` of `ed25519_dalek::PublicKey`)
/// accepts `signature` on `message` under the key encoded as `key`.
pub uninterp spec fn ed25519_verifies(key: Seq<u8>, message: Seq<u8>, signature: Seq<u8>) -> bool;

/// A public key together with the bytes it was decoded from.
pub(crate) struct VerifyingKey {
    key: ed25519_dalek::PublicKey,
    encoded: Vec<u8>,
}

impl View for VerifyingKey {
    type V = Seq<u8>;

    closed spec fn view(&self) -> Seq<u8> {
        self.encoded@
    }
}

/// A signature together with the bytes it was decoded from.
pub(crate) struct SignatureBytes {
    signature: ed25519_dalek::Signature,
    encoded: Vec<u8>,
}

impl View for SignatureBytes {
    type V = Seq<u8>;

    closed spec fn view(&self) -> Seq<u8> {
        self.encoded@
    }
}

impl VerifyingKey {
    /// `ed25519_dalek::PublicKey::from_bytes` on `bytes`: it accepts exactly the
    /// 32-byte encodings that decompress to a curve point, and the key keeps
    /// `bytes` as its view.
    #[verifier::external_body]
    pub(crate) fn from_bytes(bytes: Vec<u8>) -> (res: Option<VerifyingKey>)
        ensures
            res is Some <==> (bytes@.len() == 32 && ed25519_point_decompresses(bytes@)),
            res matches Some(k) ==> k@ == bytes@,
    {
        match ed25519_dalek::PublicKey::from_bytes(bytes.as_slice()) {
            Ok(key) => Some(VerifyingKey { key, encoded: bytes }),
            Err(_) => None,
        }
    }

    /// `Verifier::verify` of `ed25519_dalek::PublicKey`: whether `signature` is
    /// accepted on `message` under this key. Both values were decoded from the
    /// bytes their views hold, so the result is named over those bytes.
    #[verifier::external_body]
    pub(crate) fn verify(&self, message: &[u8], signature: &SignatureBytes) -> (res: bool)
        ensures
            res == ed25519_verifies(self@, message@, signature@),
    {
        self.key.verify(message, &signature.signature).is_ok()
    }
}

impl SignatureBytes {
    /// `ed25519_dalek::Signature::from_bytes` (`ed25519::Signature::from_bytes`)
    /// on `bytes`: it accepts exactly the 64-byte slices whose last byte has its
    /// top three bits clear, and the signature keeps `bytes` as its view.
    #[verifier::external_body]
    pub(crate) fn from_bytes(bytes: Vec<u8>) -> (res: Option<SignatureBytes>)
        ensures
            res is Some <==> (bytes@.len() == 64 && bytes@[63] & 0xe0u8 == 0),
            res matches Some(s) ==> s@ == bytes@,
    {
        match ed25519_dalek::Signature::from_bytes(bytes.as_slice()) {
            Ok(signature) => Some(SignatureBytes { signature, encoded: bytes }),
            Err(_) => None,
        }
    }
}

} // verus!

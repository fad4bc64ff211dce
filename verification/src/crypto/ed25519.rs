//! Ed25519 signatures.
//!
//! Keys are held as their raw bytes. A keypair always holds the public
//! key that belongs to its secret key.

use vstd::prelude::*;
use vstd::slice::slice_to_vec;
use crate::crypto::error::CryptoError;
use crate::crypto::random::{array32, os_random};
use crate::crypto::traits::{KeyPair, Signer, Verifier};

verus! {

/// Length of a secret key in bytes.
pub const SECRET_KEY_LENGTH: usize = 32;

/// Length of a public key in bytes.
pub const PUBLIC_KEY_LENGTH: usize = 32;

/// Length of a signature in bytes.
pub const SIGNATURE_LENGTH: usize = 64;

/// The public key that belongs to a secret key, as `ed25519-dalek`
/// derives it.
pub uninterp spec fn ed25519_public_key(secret: Seq<u8>) -> Seq<u8>;

/// The signature of `msg` under a secret key, as `ed25519-dalek`
/// computes it.
pub uninterp spec fn ed25519_signature(secret: Seq<u8>, msg: Seq<u8>) -> Seq<u8>;

/// Whether `ed25519-dalek` accepts `signature` for `msg` under a public
/// key.
pub uninterp spec fn ed25519_accepts(public: Seq<u8>, msg: Seq<u8>, signature: Seq<u8>) -> bool;

/// Calls `SigningKey::verifying_key`: the public key of a secret key.
#[verifier::external_body]
fn derive_public(secret: &[u8; 32]) -> (r: [u8; 32])
    ensures
        r@ == ed25519_public_key(secret@),
{
    ed25519_dalek::SigningKey::from_bytes(secret).verifying_key().to_bytes()
}

/// Calls `Signer::sign` of `SigningKey`. Signing is deterministic, and
/// the signature is accepted under the public key of the secret key.
#[verifier::external_body]
fn sign_raw(secret: &[u8; 32], msg: &[u8]) -> (r: [u8; 64])
    ensures
        r@ == ed25519_signature(secret@, msg@),
        ed25519_accepts(ed25519_public_key(secret@), msg@, r@),
{
    let key = ed25519_dalek::SigningKey::from_bytes(secret);
    ed25519_dalek::Signer::sign(&key, msg).to_bytes()
}

/// Calls `Verifier::verify` of `VerifyingKey`. Bytes that are no public
/// key accept nothing.
#[verifier::external_body]
fn verify_raw(public: &[u8; 32], msg: &[u8], signature: &[u8; 64]) -> (r: bool)
    ensures
        r == ed25519_accepts(public@, msg@, signature@),
{
    match ed25519_dalek::VerifyingKey::from_bytes(public) {
        Ok(key) => ed25519_dalek::Verifier::verify(
            &key,
            msg,
            &ed25519_dalek::Signature::from_bytes(signature),
        ).is_ok(),
        Err(_) => false,
    }
}

/// Copies the first 64 bytes of a slice into an array.
fn array64(bytes: &[u8]) -> (r: [u8; 64])
    requires
        bytes@.len() >= 64,
    ensures
        r@ == bytes@.subrange(0, 64),
{
    let mut out: [u8; 64] = [0u8; 64];
    let mut i: usize = 0;
    while i < 64
        invariant
            i <= 64,
            bytes@.len() >= 64,
            forall|j: int| 0 <= j < i ==> out@[j] == bytes@[j],
        decreases 64 - i,
    {
        out[i] = bytes[i];
        i = i + 1;
    }
    assert(out@ =~= bytes@.subrange(0, 64));
    out
}

/// An Ed25519 public key, for verification.
#[derive(Clone, Copy, Debug)]
pub struct Ed25519PublicKey {
    bytes: [u8; 32],
}

impl View for Ed25519PublicKey {
    type V = Seq<u8>;

    closed spec fn view(&self) -> Seq<u8> {
        self.bytes@
    }
}

impl Ed25519PublicKey {
    /// A public key from its raw bytes.
    pub fn from_bytes(bytes: [u8; 32]) -> (r: Self)
        ensures
            r@ == bytes@,
    {
        Ed25519PublicKey { bytes }
    }

    /// The raw bytes.
    pub fn as_bytes(&self) -> (r: &[u8; 32])
        ensures
            r@ == self@,
    {
        &self.bytes
    }

    /// The raw bytes, copied.
    pub fn to_bytes(&self) -> (r: [u8; 32])
        ensures
            r@ == self@,
    {
        self.bytes
    }
}

impl Verifier for Ed25519PublicKey {
    open spec fn accepts(&self, msg: Seq<u8>, signature: Seq<u8>) -> bool {
        signature.len() == SIGNATURE_LENGTH && ed25519_accepts(self@, msg, signature)
    }

    /// A signature of the wrong length is invalid input; any other
    /// rejection is a verification failure.
    fn verify(&self, msg: &[u8], signature: &[u8]) -> (r: Result<(), CryptoError>)
        ensures
            r matches Err(e) ==> if signature@.len() != SIGNATURE_LENGTH {
                e matches CryptoError::InvalidInput(m) && m@ == "signature error"@
            } else {
                e is VerificationFailed
            },
    {
        if signature.len() != SIGNATURE_LENGTH {
            return Err(CryptoError::invalid_input("signature error"));
        }
        let sig = array64(signature);
        assert(signature@.subrange(0, 64) =~= signature@);
        if verify_raw(&self.bytes, msg, &sig) {
            Ok(())
        } else {
            Err(CryptoError::VerificationFailed)
        }
    }
}

/// An Ed25519 keypair for signing and verification.
pub struct Ed25519Keypair {
    secret: [u8; 32],
    public: Ed25519PublicKey,
}

impl Ed25519Keypair {
    #[verifier::type_invariant]
    spec fn inv(self) -> bool {
        self.public@ == ed25519_public_key(self.secret@)
    }

    /// The raw secret key.
    pub closed spec fn secret_view(&self) -> Seq<u8> {
        self.secret@
    }

    /// The raw public key.
    pub closed spec fn public_view(&self) -> Seq<u8> {
        self.public@
    }

    /// The keypair of a secret key.
    pub fn from_secret(secret: [u8; 32]) -> (r: Self)
        ensures
            r.secret_view() == secret@,
            r.public_view() == ed25519_public_key(secret@),
    {
        let public = Ed25519PublicKey::from_bytes(derive_public(&secret));
        Ed25519Keypair { secret, public }
    }

    /// The public verifying key, which is the one that belongs to the
    /// secret key.
    pub fn public_key(&self) -> (r: &Ed25519PublicKey)
        ensures
            r@ == self.public_view(),
            r@ == ed25519_public_key(self.secret_view()),
    {
        proof {
            use_type_invariant(self);
        }
        &self.public
    }

    /// The secret key bytes. Handle with care.
    pub fn secret_key_bytes(&self) -> (r: &[u8])
        ensures
            r@ == self.secret_view(),
    {
        self.secret.as_slice()
    }
}

impl Signer for Ed25519Keypair {
    open spec fn signs(&self, msg: Seq<u8>, signature: Seq<u8>) -> bool {
        signature == ed25519_signature(self.secret_view(), msg)
    }

    /// Signing always succeeds; the signature has 64 bytes and verifies
    /// under this keypair.
    fn sign(&self, msg: &[u8]) -> (r: Result<Vec<u8>, CryptoError>)
        ensures
            r matches Ok(signature) && signature@.len() == SIGNATURE_LENGTH && self.accepts(
                msg@,
                signature@,
            ),
    {
        proof {
            use_type_invariant(self);
        }
        let sig = sign_raw(&self.secret, msg);
        Ok(slice_to_vec(sig.as_slice()))
    }
}

impl Verifier for Ed25519Keypair {
    open spec fn accepts(&self, msg: Seq<u8>, signature: Seq<u8>) -> bool {
        signature.len() == SIGNATURE_LENGTH && ed25519_accepts(self.public_view(), msg, signature)
    }

    fn verify(&self, msg: &[u8], signature: &[u8]) -> (r: Result<(), CryptoError>)
        ensures
            r matches Err(e) ==> if signature@.len() != SIGNATURE_LENGTH {
                e matches CryptoError::InvalidInput(m) && m@ == "signature error"@
            } else {
                e is VerificationFailed
            },
    {
        self.public.verify(msg, signature)
    }
}

impl KeyPair for Ed25519Keypair {
    /// A keypair of a random secret key, or a key generation error when
    /// the entropy source fails.
    fn generate() -> (r: Result<Self, CryptoError>)
        ensures
            r matches Err(e) ==> e matches CryptoError::KeyGeneration(m) && m@
                == "entropy source failed"@,
    {
        match os_random(SECRET_KEY_LENGTH) {
            Some(seed) => Ok(Ed25519Keypair::from_secret(array32(seed.as_slice()))),
            None => Err(
                CryptoError::KeyGeneration("entropy source failed".to_owned()),
            ),
        }
    }

    fn public_key_bytes(&self) -> (r: &[u8])
        ensures
            r@ == self.public_view(),
            r@.len() == PUBLIC_KEY_LENGTH,
    {
        self.public.as_bytes().as_slice()
    }

    fn secret_key_bytes(&self) -> (r: &[u8])
        ensures
            r@ == self.secret_view(),
            r@.len() == SECRET_KEY_LENGTH,
    {
        self.secret.as_slice()
    }

    /// The keypair of the given secret key; anything but 32 bytes is
    /// refused with both lengths reported.
    fn from_secret_key_bytes(bytes: &[u8]) -> (r: Result<Self, CryptoError>)
        ensures
            match r {
                Ok(pair) => bytes@.len() == SECRET_KEY_LENGTH && pair.secret_view() == bytes@
                    && pair.public_view() == ed25519_public_key(bytes@),
                Err(e) => bytes@.len() != SECRET_KEY_LENGTH && e
                    == (CryptoError::InvalidSecretKeyLength {
                    expected: SECRET_KEY_LENGTH,
                    actual: bytes@.len() as usize,
                }),
            },
    {
        if bytes.len() != SECRET_KEY_LENGTH {
            return Err(
                CryptoError::InvalidSecretKeyLength {
                    expected: SECRET_KEY_LENGTH,
                    actual: bytes.len(),
                },
            );
        }
        let secret = array32(bytes);
        assert(bytes@.subrange(0, 32) =~= bytes@);
        Ok(Ed25519Keypair::from_secret(secret))
    }
}

} // verus!

//! X25519 Diffie-Hellman key agreement.

use vstd::prelude::*;
use crate::crypto::error::CryptoError;
use crate::crypto::random::{array32, os_random};
use crate::crypto::traits::KeyAgreement;

verus! {

/// The public key that belongs to a secret key, as `x25519-dalek`
/// derives it.
pub uninterp spec fn x25519_public_key(secret: Seq<u8>) -> Seq<u8>;

/// The secret that `x25519-dalek` derives from a secret key and another
/// party's public key.
pub uninterp spec fn x25519_shared_secret(secret: Seq<u8>, their_public: Seq<u8>) -> Seq<u8>;

/// Calls `PublicKey::from` on a `StaticSecret`: the public key of a
/// secret key.
#[verifier::external_body]
fn derive_public(secret: &[u8; 32]) -> (r: [u8; 32])
    ensures
        r@ == x25519_public_key(secret@),
{
    let secret = x25519_dalek::StaticSecret::from(*secret);
    x25519_dalek::PublicKey::from(&secret).to_bytes()
}

/// Calls `StaticSecret::diffie_hellman`: the secret shared between a
/// secret key and another party's public key. The agreement is symmetric:
/// the holder of the other secret key derives the same secret from this
/// side's public key.
#[verifier::external_body]
fn agree_raw(secret: &[u8; 32], their_public: &[u8; 32]) -> (r: [u8; 32])
    ensures
        r@ == x25519_shared_secret(secret@, their_public@),
        forall|their_secret: Seq<u8>|
            their_secret.len() == 32 && their_public@ == x25519_public_key(their_secret) ==> r@
                == #[trigger] x25519_shared_secret(
                their_secret,
                x25519_public_key(secret@),
            ),
{
    let secret = x25519_dalek::StaticSecret::from(*secret);
    secret.diffie_hellman(&x25519_dalek::PublicKey::from(*their_public)).to_bytes()
}

/// An X25519 keypair for key agreement.
pub struct X25519Keypair {
    secret: [u8; 32],
    public: [u8; 32],
}

impl X25519Keypair {
    #[verifier::type_invariant]
    spec fn inv(self) -> bool {
        self.public@ == x25519_public_key(self.secret@)
    }

    /// The raw secret key.
    pub closed spec fn secret_view(&self) -> Seq<u8> {
        self.secret@
    }

    /// The raw public key.
    pub closed spec fn public_view(&self) -> Seq<u8> {
        self.public@
    }

    /// The keypair of a secret key.
    pub fn from_secret(secret: [u8; 32]) -> (r: Self)
        ensures
            r.secret_view() == secret@,
            r.public_view() == x25519_public_key(secret@),
    {
        let public = derive_public(&secret);
        X25519Keypair { secret, public }
    }

    /// A keypair of a random secret key, or a key generation error when
    /// the entropy source fails.
    pub fn generate() -> (r: Result<Self, CryptoError>)
        ensures
            r matches Err(e) ==> e matches CryptoError::KeyGeneration(m) && m@
                == "entropy source failed"@,
    {
        match os_random(32) {
            Some(seed) => Ok(X25519Keypair::from_secret(array32(seed.as_slice()))),
            None => Err(
                CryptoError::KeyGeneration("entropy source failed".to_owned()),
            ),
        }
    }

    /// The public key, which is the one that belongs to the secret key.
    pub fn public_key(&self) -> (r: &[u8; 32])
        ensures
            r@ == self.public_view(),
            r@ == x25519_public_key(self.secret_view()),
            self.secret_view().len() == 32,
    {
        proof {
            use_type_invariant(self);
        }
        &self.public
    }
}

impl KeyAgreement for X25519Keypair {
    type PublicKey = [u8; 32];

    open spec fn shared_secret(&self, their_public: &[u8; 32]) -> Seq<u8> {
        x25519_shared_secret(self.secret_view(), their_public@)
    }

    /// The agreement is symmetric: the holder of the secret key behind
    /// `their_public` derives the same secret from this keypair's public
    /// key.
    fn diffie_hellman(&self, their_public: &[u8; 32]) -> (r: [u8; 32])
        ensures
            forall|their_secret: Seq<u8>|
                their_secret.len() == 32 && their_public@ == x25519_public_key(their_secret) ==> r@
                    == #[trigger] x25519_shared_secret(their_secret, self.public_view()),
    {
        proof {
            use_type_invariant(self);
        }
        agree_raw(&self.secret, their_public)
    }
}

} // verus!

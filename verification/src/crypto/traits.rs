//! Capability interfaces of the cryptographic layer.

use vstd::prelude::*;
use crate::crypto::error::CryptoError;
use crate::crypto::random::array32;

verus! {

/// Signing of arbitrary messages.
pub trait Signer {
    /// `signature` is one that this signer may produce for `msg`.
    spec fn signs(&self, msg: Seq<u8>, signature: Seq<u8>) -> bool;

    /// Signs a message and returns the raw signature bytes.
    fn sign(&self, msg: &[u8]) -> (r: Result<Vec<u8>, CryptoError>)
        ensures
            r matches Ok(signature) ==> self.signs(msg@, signature@),
    ;
}

/// Verification of signatures.
pub trait Verifier {
    /// `signature` is accepted for `msg`.
    spec fn accepts(&self, msg: Seq<u8>, signature: Seq<u8>) -> bool;

    /// Verifies a signature over a message; the error does not say which
    /// check failed beyond the kind of the error.
    fn verify(&self, msg: &[u8], signature: &[u8]) -> (r: Result<(), CryptoError>)
        ensures
            r is Ok <==> self.accepts(msg@, signature@),
    ;
}

/// Deterministic hashing.
pub trait Hasher {
    /// The digest of `data`.
    spec fn digest(&self, data: Seq<u8>) -> Seq<u8>;

    /// Hashes arbitrary data and returns the raw digest bytes.
    fn hash(&self, data: &[u8]) -> (r: Vec<u8>)
        ensures
            r@ == self.digest(data@),
    ;
}

/// Diffie-Hellman key agreement.
pub trait KeyAgreement {
    /// The type of public key used in the agreement.
    type PublicKey;

    /// The secret shared with the holder of `their_public`.
    spec fn shared_secret(&self, their_public: &Self::PublicKey) -> Seq<u8>;

    /// Derives the 32-byte secret shared with the holder of
    /// `their_public`.
    fn diffie_hellman(&self, their_public: &Self::PublicKey) -> (r: [u8; 32])
        ensures
            r@ == self.shared_secret(their_public),
    ;
}

/// Authenticated encryption with associated data, in place.
pub trait Aead {
    /// Error returned by encryption and decryption.
    type Error;

    /// The ciphertext of `plaintext`, unless encryption refuses it.
    spec fn sealed(
        &self,
        key: Seq<u8>,
        nonce: Seq<u8>,
        aad: Seq<u8>,
        plaintext: Seq<u8>,
    ) -> Option<Seq<u8>>;

    /// The plaintext of `ciphertext`, if it is authentic.
    spec fn opened(
        &self,
        key: Seq<u8>,
        nonce: Seq<u8>,
        aad: Seq<u8>,
        ciphertext: Seq<u8>,
    ) -> Option<Seq<u8>>;

    /// Encrypts `plaintext` in place and appends the authentication tag.
    fn encrypt(&self, key: &[u8; 32], nonce: &[u8; 12], aad: &[u8], plaintext: &mut Vec<u8>) -> (r:
        Result<(), Self::Error>)
        ensures
            match r {
                Ok(_) => self.sealed(key@, nonce@, aad@, old(plaintext)@) == Some(
                    final(plaintext)@,
                ),
                Err(_) => self.sealed(key@, nonce@, aad@, old(plaintext)@) is None,
            },
    ;

    /// Decrypts `ciphertext` in place after checking its authenticity.
    fn decrypt(&self, key: &[u8; 32], nonce: &[u8; 12], aad: &[u8], ciphertext: &mut Vec<u8>) -> (r:
        Result<(), Self::Error>)
        ensures
            match r {
                Ok(_) => self.opened(key@, nonce@, aad@, old(ciphertext)@) == Some(
                    final(ciphertext)@,
                ),
                Err(_) => self.opened(key@, nonce@, aad@, old(ciphertext)@) is None,
            },
    ;
}

/// A complete keypair: it signs, verifies, and can be generated, exported
/// and restored.
pub trait KeyPair: Signer + Verifier + Sized {
    /// Generates a new random keypair.
    fn generate() -> Result<Self, CryptoError>;

    /// The raw public key bytes.
    fn public_key_bytes(&self) -> &[u8];

    /// The raw secret key bytes.
    fn secret_key_bytes(&self) -> &[u8];

    /// Restores a keypair from raw secret key bytes; a wrong length is
    /// refused.
    fn from_secret_key_bytes(bytes: &[u8]) -> Result<Self, CryptoError>;
}

/// Generates or loads key material.
pub trait KeyManager: Sized {
    /// Generates a new random keypair.
    fn generate() -> Result<Self, CryptoError>;

    /// The raw public key bytes.
    fn public_key_bytes(&self) -> &[u8];
}

/// A digest value of fixed length.
pub trait Digest: Sized {
    /// Length of the digest in bytes.
    fn length() -> usize;

    /// The digest bytes.
    fn as_bytes(&self) -> &[u8];

    /// A digest from raw bytes; a wrong length is refused.
    fn from_bytes(bytes: &[u8]) -> Result<Self, CryptoError>;
}

/// Multibase text encoding.
pub trait MultibaseEncoder {
    /// Encodes bytes as text.
    fn encode(&self, data: &[u8]) -> String;

    /// Decodes text back to bytes.
    fn decode(&self, input: &str) -> Result<Vec<u8>, CryptoError>;
}

/// Multicodec prefixes.
pub trait MulticodecEncoder {
    /// The multicodec code of this type.
    fn code(&self) -> u64;

    /// Puts the multicodec prefix in front of the data.
    fn encode_prefixed(&self, data: &[u8]) -> Vec<u8>;

    /// Splits prefixed input into its code and the data behind it.
    fn decode_prefixed(input: &[u8]) -> Result<(u64, Vec<u8>), CryptoError>;
}

/// What one draw from a source came to: the bytes, or the error.
pub open spec fn drawn(r: Result<Vec<u8>, CryptoError>) -> Result<Seq<u8>, CryptoError> {
    match r {
        Ok(bytes) => Ok(bytes@),
        Err(e) => Err(e),
    }
}

/// What one draw of an array from a source came to: the bytes, or the
/// error.
pub open spec fn drawn_array<const N: usize>(r: Result<[u8; N], CryptoError>) -> Result<
    Seq<u8>,
    CryptoError,
> {
    match r {
        Ok(bytes) => Ok(bytes@),
        Err(e) => Err(e),
    }
}

/// A source of entropy.
pub trait Randomness: Sized {
    /// One draw of `len` bytes can take the source from `self` to
    /// `after` with the given outcome. Unless a source says more of
    /// itself, a draw that succeeds yields exactly `len` bytes.
    open spec fn draws(
        &self,
        len: usize,
        after: &Self,
        outcome: Result<Seq<u8>, CryptoError>,
    ) -> bool {
        outcome matches Ok(bytes) ==> bytes.len() == len
    }

    /// Draws `len` random bytes: one draw of the source, which yields
    /// exactly `len` bytes where it succeeds.
    fn fill_bytes(&mut self, len: usize) -> (r: Result<Vec<u8>, CryptoError>)
        ensures
            r matches Ok(bytes) ==> bytes@.len() == len,
            old(self).draws(len, final(self), drawn(r)),
    ;

    /// Draws a 32-byte array, as used for seeds and keys: one draw of 32
    /// bytes from the source, whose bytes or error are handed on as they
    /// came.
    fn gen_32_bytes(&mut self) -> (r: Result<[u8; 32], CryptoError>)
        ensures
            old(self).draws(32, final(self), drawn_array(r)),
    {
        match self.fill_bytes(32) {
            Ok(buf) => {
                let out = array32(buf.as_slice());
                assert(buf@.subrange(0, 32) =~= buf@);
                Ok(out)
            },
            Err(e) => Err(e),
        }
    }

    /// Draws an array of `N` bytes: one draw of `N` bytes from the
    /// source, whose bytes or error are handed on as they came.
    fn gen_bytes<const N: usize>(&mut self) -> (r: Result<[u8; N], CryptoError>)
        ensures
            old(self).draws(N, final(self), drawn_array(r)),
    {
        match self.fill_bytes(N) {
            Ok(buf) => {
                let mut out: [u8; N] = [0u8; N];
                let mut i: usize = 0;
                while i < N
                    invariant
                        i <= N,
                        buf@.len() == N,
                        forall|j: int| 0 <= j < i ==> out@[j] == buf@[j],
                    decreases N - i,
                {
                    out[i] = buf[i];
                    i = i + 1;
                }
                assert(out@ =~= buf@);
                Ok(out)
            },
            Err(e) => Err(e),
        }
    }
}

/// The entropy source that always fails, for builds without key
/// generation.
#[derive(Clone, Copy, Debug)]
pub struct NoRandomness;

impl Randomness for NoRandomness {
    /// Every draw is refused with the error that says random generation
    /// is switched off.
    open spec fn draws(
        &self,
        len: usize,
        after: &Self,
        outcome: Result<Seq<u8>, CryptoError>,
    ) -> bool {
        outcome matches Err(e) && e is RandomnessDisabled
    }

    fn fill_bytes(&mut self, len: usize) -> (r: Result<Vec<u8>, CryptoError>)
        ensures
            r matches Err(e) && e is RandomnessDisabled,
    {
        Err(CryptoError::RandomnessDisabled)
    }
}

} // verus!

//! ChaCha20-Poly1305 authenticated encryption.

use vstd::prelude::*;
use crate::crypto::error::AeadError;
use crate::crypto::traits::Aead;

verus! {

/// Length of the authentication tag that encryption appends.
pub const TAG_LEN: usize = 16;

/// The ChaCha20-Poly1305 ciphertext (with the tag appended) of
/// `plaintext` under `key`, `nonce` and `aad`, as the `chacha20poly1305`
/// crate computes it.
pub uninterp spec fn chacha20poly1305_sealed(
    key: Seq<u8>,
    nonce: Seq<u8>,
    aad: Seq<u8>,
    plaintext: Seq<u8>,
) -> Seq<u8>;

/// The plaintext that the `chacha20poly1305` crate recovers from
/// `ciphertext` under `key`, `nonce` and `aad`; `None` when it refuses
/// the ciphertext.
pub uninterp spec fn chacha20poly1305_opened(
    key: Seq<u8>,
    nonce: Seq<u8>,
    aad: Seq<u8>,
    ciphertext: Seq<u8>,
) -> Option<Seq<u8>>;

/// A plaintext is short enough to be encrypted: it has fewer than
/// 2^32 - 1 blocks of 64 bytes.
pub open spec fn encryptable(plaintext: Seq<u8>) -> bool {
    plaintext.len() / 64 < 0xffff_ffff
}

/// Calls `Aead::encrypt` of `ChaCha20Poly1305`. The cipher refuses
/// exactly the plaintexts of 2^32 - 1 blocks or more. Otherwise the
/// result is the ciphertext followed by the 16-byte tag, and decrypting
/// it under the same key, nonce and associated data gives the plaintext
/// back.
#[verifier::external_body]
fn chacha20poly1305_encrypt(key: &[u8; 32], nonce: &[u8; 12], aad: &[u8], plaintext: &[u8]) -> (r:
    Result<Vec<u8>, AeadError>)
    ensures
        r is Ok <==> encryptable(plaintext@),
        r matches Ok(sealed) ==> {
            &&& sealed@ == chacha20poly1305_sealed(key@, nonce@, aad@, plaintext@)
            &&& sealed@.len() == plaintext@.len() + TAG_LEN
            &&& chacha20poly1305_opened(key@, nonce@, aad@, sealed@) == Some(plaintext@)
        },
{
    let cipher = <chacha20poly1305::ChaCha20Poly1305 as chacha20poly1305::KeyInit>::new(
        chacha20poly1305::Key::from_slice(key),
    );
    let payload = chacha20poly1305::aead::Payload { msg: plaintext, aad };
    chacha20poly1305::aead::Aead::encrypt(
        &cipher,
        chacha20poly1305::Nonce::from_slice(nonce),
        payload,
    ).map_err(|_| AeadError)
}

/// Calls `Aead::decrypt` of `ChaCha20Poly1305`. The result is the
/// plaintext when the ciphertext is authentic under the key, nonce and
/// associated data, and an error otherwise.
#[verifier::external_body]
fn chacha20poly1305_decrypt(key: &[u8; 32], nonce: &[u8; 12], aad: &[u8], ciphertext: &[u8]) -> (r:
    Result<Vec<u8>, AeadError>)
    ensures
        match r {
            Ok(plaintext) => chacha20poly1305_opened(key@, nonce@, aad@, ciphertext@) == Some(
                plaintext@,
            ),
            Err(_) => chacha20poly1305_opened(key@, nonce@, aad@, ciphertext@) is None,
        },
{
    let cipher = <chacha20poly1305::ChaCha20Poly1305 as chacha20poly1305::KeyInit>::new(
        chacha20poly1305::Key::from_slice(key),
    );
    let payload = chacha20poly1305::aead::Payload { msg: ciphertext, aad };
    chacha20poly1305::aead::Aead::decrypt(
        &cipher,
        chacha20poly1305::Nonce::from_slice(nonce),
        payload,
    ).map_err(|_| AeadError)
}

/// ChaCha20-Poly1305 cipher.
#[derive(Clone, Copy, Debug)]
pub struct ChaCha20Poly1305Cipher;

impl Aead for ChaCha20Poly1305Cipher {
    type Error = AeadError;

    open spec fn sealed(
        &self,
        key: Seq<u8>,
        nonce: Seq<u8>,
        aad: Seq<u8>,
        plaintext: Seq<u8>,
    ) -> Option<Seq<u8>> {
        if encryptable(plaintext) {
            Some(chacha20poly1305_sealed(key, nonce, aad, plaintext))
        } else {
            None
        }
    }

    open spec fn opened(
        &self,
        key: Seq<u8>,
        nonce: Seq<u8>,
        aad: Seq<u8>,
        ciphertext: Seq<u8>,
    ) -> Option<Seq<u8>> {
        chacha20poly1305_opened(key, nonce, aad, ciphertext)
    }

    /// On success the buffer holds the ciphertext and tag, which decrypt
    /// to what it held before; on refusal it is left as it was.
    fn encrypt(&self, key: &[u8; 32], nonce: &[u8; 12], aad: &[u8], plaintext: &mut Vec<u8>) -> (r:
        Result<(), AeadError>)
        ensures
            r is Ok <==> encryptable(old(plaintext)@),
            r is Ok ==> final(plaintext)@.len() == old(plaintext)@.len() + TAG_LEN
                && chacha20poly1305_opened(key@, nonce@, aad@, final(plaintext)@) == Some(
                old(plaintext)@,
            ),
            r is Err ==> final(plaintext)@ == old(plaintext)@,
    {
        match chacha20poly1305_encrypt(key, nonce, aad, plaintext.as_slice()) {
            Ok(sealed) => {
                *plaintext = sealed;
                Ok(())
            },
            Err(e) => Err(e),
        }
    }

    /// On success the buffer holds the plaintext; on failure it is left
    /// as it was, so no unauthenticated plaintext is ever exposed.
    fn decrypt(&self, key: &[u8; 32], nonce: &[u8; 12], aad: &[u8], ciphertext: &mut Vec<u8>) -> (r:
        Result<(), AeadError>)
        ensures
            r is Err ==> final(ciphertext)@ == old(ciphertext)@,
    {
        match chacha20poly1305_decrypt(key, nonce, aad, ciphertext.as_slice()) {
            Ok(opened) => {
                *ciphertext = opened;
                Ok(())
            },
            Err(e) => Err(e),
        }
    }
}

/// Encrypts `plaintext` in place with ChaCha20-Poly1305.
pub fn encrypt(key: &[u8; 32], nonce: &[u8; 12], aad: &[u8], plaintext: &mut Vec<u8>) -> (r: Result<
    (),
    AeadError,
>)
    ensures
        r is Ok <==> encryptable(old(plaintext)@),
        r is Ok ==> final(plaintext)@ == chacha20poly1305_sealed(
            key@,
            nonce@,
            aad@,
            old(plaintext)@,
        ) && final(plaintext)@.len() == old(plaintext)@.len() + TAG_LEN && chacha20poly1305_opened(
            key@,
            nonce@,
            aad@,
            final(plaintext)@,
        ) == Some(old(plaintext)@),
        r is Err ==> final(plaintext)@ == old(plaintext)@,
{
    ChaCha20Poly1305Cipher.encrypt(key, nonce, aad, plaintext)
}

/// Decrypts `ciphertext` in place with ChaCha20-Poly1305.
pub fn decrypt(key: &[u8; 32], nonce: &[u8; 12], aad: &[u8], ciphertext: &mut Vec<u8>) -> (r:
    Result<(), AeadError>)
    ensures
        match r {
            Ok(_) => chacha20poly1305_opened(key@, nonce@, aad@, old(ciphertext)@) == Some(
                final(ciphertext)@,
            ),
            Err(_) => chacha20poly1305_opened(key@, nonce@, aad@, old(ciphertext)@) is None
                && final(ciphertext)@ == old(ciphertext)@,
        },
{
    ChaCha20Poly1305Cipher.decrypt(key, nonce, aad, ciphertext)
}

} // verus!

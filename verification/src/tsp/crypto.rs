//! Sealed envelopes: payloads under authenticated encryption.
//!
//! Sealing serializes a payload, derives the nonce from the associated
//! data, encrypts, and frames the nonce as text. Opening reverses this
//! and hands out a payload only after every check has passed.

use vstd::prelude::*;
use vstd::slice::slice_to_vec;
use vstd::string::StringExecFns;
use vstd::utf8::{
    decode_utf8, encode_utf8, encode_utf8_decode_utf8, encode_utf8_valid_utf8, valid_utf8,
};
use crate::crypto::aead::{
    chacha20poly1305_opened, chacha20poly1305_sealed, encryptable, ChaCha20Poly1305Cipher,
};
use crate::crypto::hash::{blake2b256_digest, Blake2b256Hasher};
use crate::crypto::traits::{Aead, Hasher};
use crate::text::text_from_utf8;
use crate::tsp::cesr_utils::{
    decode_nonce, decoded, encode_nonce, encoded, refuses, wrong_length, NONCE_ID, NONCE_LEN,
};
use crate::tsp::error::TspError;
use crate::tsp::payload::{lemma_payload_round_trip, payload_bytes, payload_of_bytes};
use crate::tsp::types::{clone_bytes, TspPayload, TspPayloadView};
use crate::tsp::wire::{
    take_last,
    fields_fit, fields_view, join, join_fields, lemma_split_join, split, split_fields, write_text,
};

verus! {

/// Mathematical value of an [`EncryptedMessage`].
pub struct EncryptedMessageView {
    pub nonce_cesr: Seq<char>,
    pub ciphertext: Seq<u8>,
    pub aad: Seq<u8>,
}

/// A sealed payload.
#[derive(Debug)]
pub struct EncryptedMessage {
    /// The nonce, framed as text.
    pub nonce_cesr: String,
    /// The encrypted payload with its authentication tag.
    pub ciphertext: Vec<u8>,
    /// The associated data, authenticated but not encrypted.
    pub aad: Vec<u8>,
}

impl View for EncryptedMessage {
    type V = EncryptedMessageView;

    open spec fn view(&self) -> EncryptedMessageView {
        EncryptedMessageView {
            nonce_cesr: self.nonce_cesr@,
            ciphertext: self.ciphertext@,
            aad: self.aad@,
        }
    }
}

impl Clone for EncryptedMessage {
    fn clone(&self) -> (r: Self)
        ensures
            r@ == self@,
    {
        EncryptedMessage {
            nonce_cesr: self.nonce_cesr.clone(),
            ciphertext: clone_bytes(&self.ciphertext),
            aad: clone_bytes(&self.aad),
        }
    }
}

/// The fields that carry a sealed payload.
pub open spec fn encrypted_fields(message: EncryptedMessageView) -> Seq<Seq<u8>> {
    seq![encode_utf8(message.nonce_cesr), message.ciphertext, message.aad]
}

/// The serialized form of a sealed payload.
pub open spec fn encrypted_bytes(message: EncryptedMessageView) -> Seq<u8> {
    join_fields(encrypted_fields(message))
}

/// The sealed payload that `bytes` serializes, if any.
pub open spec fn encrypted_of_bytes(bytes: Seq<u8>) -> Option<EncryptedMessageView> {
    match split_fields(bytes) {
        Some(fields) => if fields.len() == 3 && valid_utf8(fields[0]) {
            Some(
                EncryptedMessageView {
                    nonce_cesr: decode_utf8(fields[0]),
                    ciphertext: fields[1],
                    aad: fields[2],
                },
            )
        } else {
            None
        },
        None => None,
    }
}

/// Deserializing a serialized sealed payload gives it back.
pub proof fn lemma_encrypted_round_trip(message: EncryptedMessageView)
    requires
        fields_fit(encrypted_fields(message)),
    ensures
        encrypted_of_bytes(encrypted_bytes(message)) == Some(message),
{
    lemma_split_join(encrypted_fields(message));
    encode_utf8_valid_utf8(message.nonce_cesr);
    encode_utf8_decode_utf8(message.nonce_cesr);
}

/// The nonce under which a payload with the given associated data is
/// sealed: the first twelve bytes of the data's BLAKE2b-256 digest. The
/// same associated data always gives the same nonce, so a key must not
/// seal two payloads under the same associated data.
pub open spec fn nonce_for(aad: Seq<u8>) -> Seq<u8> {
    blake2b256_digest(aad).subrange(0, 12)
}

/// What sealing a payload produces, where the cipher accepts it.
pub open spec fn sealing(payload: TspPayloadView, key: Seq<u8>, aad: Seq<u8>) -> Option<
    EncryptedMessageView,
> {
    if encryptable(payload_bytes(payload)) {
        Some(
            EncryptedMessageView {
                nonce_cesr: encoded(NONCE_ID, nonce_for(aad)),
                ciphertext: chacha20poly1305_sealed(key, nonce_for(aad), aad, payload_bytes(payload)),
                aad,
            },
        )
    } else {
        None
    }
}

/// Why a sealed payload does not open.
pub enum OpenFailure {
    /// The nonce text is not a frame of a nonce.
    Framing,
    /// The framed nonce does not have twelve bytes.
    NonceLength,
    /// The ciphertext is not authentic under the key, nonce and
    /// associated data.
    Authentication,
    /// The plaintext serializes no payload.
    Payload,
}

impl OpenFailure {
    /// The error value that reports this failure.
    pub open spec fn reported_as(self, e: TspError) -> bool {
        match self {
            OpenFailure::Framing => e is MessageFormat && e.detail() == "Invalid nonce framing"@,
            OpenFailure::NonceLength => e is MessageFormat && e.detail() == "Invalid nonce length"@,
            OpenFailure::Authentication => e is Crypto && e.detail() == "AEAD operation failed"@,
            OpenFailure::Payload => e is MessageFormat && e.detail() == "malformed payload"@,
        }
    }
}

/// What opening a sealed payload produces.
pub open spec fn opening(message: EncryptedMessageView, key: Seq<u8>) -> Result<
    TspPayloadView,
    OpenFailure,
> {
    match decoded(NONCE_ID, message.nonce_cesr) {
        None => Err(OpenFailure::Framing),
        Some(nonce) => if nonce.len() != NONCE_LEN {
            Err(OpenFailure::NonceLength)
        } else {
            match chacha20poly1305_opened(key, nonce, message.aad, message.ciphertext) {
                None => Err(OpenFailure::Authentication),
                Some(plaintext) => match payload_of_bytes(plaintext) {
                    None => Err(OpenFailure::Payload),
                    Some(payload) => Ok(payload),
                },
            }
        },
    }
}

/// The error that reports bytes which serialize no sealed payload.
fn malformed() -> (e: TspError)
    ensures
        e is MessageFormat,
        e.detail() == "malformed encrypted message"@,
{
    TspError::MessageFormat(String::from_str("malformed encrypted message"))
}

impl EncryptedMessage {
    /// A sealed payload from its raw parts; a nonce of anything but
    /// twelve bytes is refused.
    pub fn new(nonce: Vec<u8>, ciphertext: Vec<u8>, aad: Vec<u8>) -> (r: Result<Self, TspError>)
        ensures
            match r {
                Ok(message) => {
                    &&& nonce@.len() == NONCE_LEN
                    &&& message.nonce_cesr@ == encoded(NONCE_ID, nonce@)
                    &&& decoded(NONCE_ID, message.nonce_cesr@) == Some(nonce@)
                    &&& message.ciphertext == ciphertext
                    &&& message.aad == aad
                },
                Err(e) => nonce@.len() != NONCE_LEN && e is Crypto && e.detail() == wrong_length(
                    "Invalid nonce length: "@,
                    nonce@.len(),
                    "12"@,
                ),
            },
    {
        let nonce_cesr = match encode_nonce(nonce.as_slice()) {
            Ok(text) => text,
            Err(e) => { return Err(e); },
        };
        Ok(EncryptedMessage { nonce_cesr, ciphertext, aad })
    }

    /// The raw nonce bytes; text that frames no nonce is a framing error.
    pub fn get_nonce(&self) -> (r: Result<Vec<u8>, TspError>)
        ensures
            match r {
                Ok(nonce) => decoded(NONCE_ID, self.nonce_cesr@) == Some(nonce@),
                Err(e) => refuses(e, NONCE_ID, self.nonce_cesr@),
            },
    {
        decode_nonce(self.nonce_cesr.as_str())
    }

    /// Serializes the sealed payload. Always succeeds.
    pub fn to_bytes(&self) -> (r: Result<Vec<u8>, TspError>)
        ensures
            r matches Ok(bytes) && bytes@ == encrypted_bytes(self@) && encrypted_of_bytes(bytes@)
                == Some(self@),
    {
        let mut fields: Vec<Vec<u8>> = Vec::new();
        fields.push(write_text(self.nonce_cesr.as_str()));
        fields.push(clone_bytes(&self.ciphertext));
        fields.push(clone_bytes(&self.aad));
        assert(fields_view(fields) =~= encrypted_fields(self@));
        let bytes = join(&fields);
        proof {
            lemma_encrypted_round_trip(self@);
        }
        Ok(bytes)
    }

    /// Deserializes a sealed payload; bytes that serialize none are a
    /// message format error.
    pub fn from_bytes(data: &[u8]) -> (r: Result<Self, TspError>)
        ensures
            match r {
                Ok(message) => encrypted_of_bytes(data@) == Some(message@),
                Err(e) => encrypted_of_bytes(data@) is None && e is MessageFormat && e.detail()
                    == "malformed encrypted message"@,
            },
    {
        let mut fields = match split(data) {
            Some(fields) => fields,
            None => { return Err(malformed()); },
        };
        let ghost all = fields_view(fields);
        if fields.len() != 3 {
            return Err(malformed());
        }
        let aad = take_last(&mut fields);
        let ciphertext = take_last(&mut fields);
        let nonce = take_last(&mut fields);
        assert(nonce@ == all[0] && ciphertext@ == all[1] && aad@ == all[2]);
        let nonce_cesr = match text_from_utf8(nonce) {
            Some(text) => text,
            None => { return Err(malformed()); },
        };
        Ok(EncryptedMessage { nonce_cesr, ciphertext, aad })
    }
}

/// Copies the first twelve bytes of a digest into a nonce.
fn leading_nonce(digest: &[u8]) -> (r: [u8; 12])
    requires
        digest@.len() >= 12,
    ensures
        r@ == digest@.subrange(0, 12),
{
    let mut nonce: [u8; 12] = [0u8; 12];
    let mut i: usize = 0;
    while i < 12
        invariant
            i <= 12,
            digest@.len() >= 12,
            forall|j: int| 0 <= j < i ==> nonce@[j] == digest@[j],
        decreases 12 - i,
    {
        nonce[i] = digest[i];
        i = i + 1;
    }
    assert(nonce@ =~= digest@.subrange(0, 12));
    nonce
}

/// Copies twelve bytes into a nonce.
fn nonce_of(bytes: &[u8]) -> (r: [u8; 12])
    requires
        bytes@.len() == 12,
    ensures
        r@ == bytes@,
{
    let r = leading_nonce(bytes);
    assert(bytes@.subrange(0, 12) =~= bytes@);
    r
}

/// Seals a payload under `key` with associated data `aad`.
///
/// Succeeds exactly when the cipher accepts the serialized payload. The
/// sealed payload then opens, under the same key, to the payload that
/// was sealed.
pub fn seal_payload(payload: &TspPayload, key: &[u8; 32], aad: &[u8]) -> (r: Result<
    EncryptedMessage,
    TspError,
>)
    ensures
        match r {
            Ok(sealed) => {
                &&& sealing(payload@, key@, aad@) == Some(sealed@)
                &&& opening(sealed@, key@) == Ok::<TspPayloadView, OpenFailure>(payload@)
            },
            Err(e) => sealing(payload@, key@, aad@) is None && e is Crypto && e.detail()
                == "AEAD operation failed"@,
        },
{
    let mut plaintext = payload.to_bytes();
    let hasher = Blake2b256Hasher;
    let hash = hasher.hash(aad);
    let nonce = leading_nonce(hash.as_slice());
    let cipher = ChaCha20Poly1305Cipher;
    match cipher.encrypt(key, &nonce, aad, &mut plaintext) {
        Ok(_) => {},
        Err(e) => { return Err(TspError::Crypto(e.to_string())); },
    }
    proof {
        lemma_payload_round_trip(payload@);
    }
    EncryptedMessage::new(slice_to_vec(nonce.as_slice()), plaintext, slice_to_vec(aad))
}

/// Opens a sealed payload under `key`.
///
/// The nonce is unframed and must have twelve bytes; the ciphertext must
/// be authentic under the key, nonce and stored associated data; the
/// plaintext must serialize a payload. Malformed framing is a message
/// format error and a failed authentication a crypto error. Whatever
/// fails, no plaintext is returned.
pub fn open_payload(encrypted: &EncryptedMessage, key: &[u8; 32]) -> (r: Result<
    TspPayload,
    TspError,
>)
    ensures
        match r {
            Ok(payload) => opening(encrypted@, key@) == Ok::<TspPayloadView, OpenFailure>(
                payload@,
            ),
            Err(e) => opening(encrypted@, key@) matches Err(why) && why.reported_as(e),
        },
{
    let mut ciphertext = clone_bytes(&encrypted.ciphertext);
    let nonce_bytes = match encrypted.get_nonce() {
        Ok(bytes) => bytes,
        Err(_) => {
            return Err(TspError::MessageFormat(String::from_str("Invalid nonce framing")));
        },
    };
    if nonce_bytes.len() != NONCE_LEN {
        return Err(TspError::MessageFormat(String::from_str("Invalid nonce length")));
    }
    let nonce = nonce_of(nonce_bytes.as_slice());
    let cipher = ChaCha20Poly1305Cipher;
    match cipher.decrypt(key, &nonce, encrypted.aad.as_slice(), &mut ciphertext) {
        Ok(_) => {},
        Err(e) => { return Err(TspError::Crypto(e.to_string())); },
    }
    TspPayload::from_bytes(ciphertext.as_slice())
}

} // verus!

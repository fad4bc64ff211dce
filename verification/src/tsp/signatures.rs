//! Detached signatures over message bytes.
//!
//! A signed message carries the message, the signature and the signer's
//! public key; signature and key travel framed as text. Checking the
//! shape of a signed message and checking its signature are two
//! different operations and are kept apart.

use vstd::prelude::*;
use vstd::slice::slice_to_vec;
use vstd::string::StringExecFns;
use vstd::utf8::{
    decode_utf8, encode_utf8, encode_utf8_decode_utf8, encode_utf8_valid_utf8, valid_utf8,
};
use crate::crypto::ed25519::Ed25519Keypair;
use crate::crypto::traits::{KeyPair, Signer, Verifier};
use crate::text::text_from_utf8;
use crate::tsp::cesr_utils::{
    decode_public_key, decode_signature, decoded, encode_public_key, encode_signature, encoded,
    refuses, wrong_length, ED25519_PUB_KEY_ID, ED25519_SIG_ID, PUBLIC_KEY_LEN, SIGNATURE_LEN,
};
use crate::tsp::error::TspError;
use crate::tsp::types::clone_bytes;
use crate::tsp::wire::{
    take_last,
    fields_fit, fields_view, join, join_fields, lemma_split_join, split, split_fields, write_text,
};

verus! {

/// Mathematical value of a [`SignedMessage`].
pub struct SignedMessageView {
    pub message: Seq<u8>,
    pub signature_cesr: Seq<char>,
    pub public_key_cesr: Seq<char>,
}

/// A message with a detached signature and the signer's public key.
#[derive(Debug)]
pub struct SignedMessage {
    /// The message bytes.
    pub message: Vec<u8>,
    /// The signature over the message, framed as text.
    pub signature_cesr: String,
    /// The signer's public key, framed as text.
    pub public_key_cesr: String,
}

impl View for SignedMessage {
    type V = SignedMessageView;

    open spec fn view(&self) -> SignedMessageView {
        SignedMessageView {
            message: self.message@,
            signature_cesr: self.signature_cesr@,
            public_key_cesr: self.public_key_cesr@,
        }
    }
}

impl Clone for SignedMessage {
    fn clone(&self) -> (r: Self)
        ensures
            r@ == self@,
    {
        SignedMessage {
            message: clone_bytes(&self.message),
            signature_cesr: self.signature_cesr.clone(),
            public_key_cesr: self.public_key_cesr.clone(),
        }
    }
}

/// The fields that carry a signed message.
pub open spec fn signed_fields(signed: SignedMessageView) -> Seq<Seq<u8>> {
    seq![signed.message, encode_utf8(signed.signature_cesr), encode_utf8(signed.public_key_cesr)]
}

/// The serialized form of a signed message.
pub open spec fn signed_bytes(signed: SignedMessageView) -> Seq<u8> {
    join_fields(signed_fields(signed))
}

/// The signed message that `bytes` serializes, if any.
pub open spec fn signed_of_bytes(bytes: Seq<u8>) -> Option<SignedMessageView> {
    match split_fields(bytes) {
        Some(fields) => if fields.len() == 3 && valid_utf8(fields[1]) && valid_utf8(fields[2]) {
            Some(
                SignedMessageView {
                    message: fields[0],
                    signature_cesr: decode_utf8(fields[1]),
                    public_key_cesr: decode_utf8(fields[2]),
                },
            )
        } else {
            None
        },
        None => None,
    }
}

/// Deserializing a serialized signed message gives it back.
pub proof fn lemma_signed_round_trip(signed: SignedMessageView)
    requires
        fields_fit(signed_fields(signed)),
    ensures
        signed_of_bytes(signed_bytes(signed)) == Some(signed),
{
    lemma_split_join(signed_fields(signed));
    encode_utf8_valid_utf8(signed.signature_cesr);
    encode_utf8_decode_utf8(signed.signature_cesr);
    encode_utf8_valid_utf8(signed.public_key_cesr);
    encode_utf8_decode_utf8(signed.public_key_cesr);
}

/// The signed message has the shape of one: its signature text frames a
/// signature of 64 bytes and its key text a public key of 32 bytes. This
/// says nothing of whether the signature is valid.
pub open spec fn well_shaped(signed: SignedMessageView) -> bool {
    &&& decoded(ED25519_SIG_ID, signed.signature_cesr) matches Some(signature)
    &&& signature.len() == SIGNATURE_LEN
    &&& decoded(ED25519_PUB_KEY_ID, signed.public_key_cesr) matches Some(key)
    &&& key.len() == PUBLIC_KEY_LEN
}

/// The keypair accepts the signature that the signed message carries for
/// the message that it carries.
pub open spec fn authentic(signed: SignedMessageView, keypair: Ed25519Keypair) -> bool {
    &&& decoded(ED25519_SIG_ID, signed.signature_cesr) matches Some(signature)
    &&& keypair.accepts(signed.message, signature)
}

/// The error that reports bytes which serialize no signed message.
fn malformed() -> (e: TspError)
    ensures
        e is MessageFormat,
        e.detail() == "malformed signed message"@,
{
    TspError::MessageFormat(String::from_str("malformed signed message"))
}

impl SignedMessage {
    /// A signed message from its raw parts; a signature of anything but
    /// 64 bytes or a public key of anything but 32 bytes is refused.
    pub fn new(message: Vec<u8>, signature: Vec<u8>, public_key: Vec<u8>) -> (r: Result<
        Self,
        TspError,
    >)
        ensures
            match r {
                Ok(signed) => {
                    &&& signature@.len() == SIGNATURE_LEN
                    &&& public_key@.len() == PUBLIC_KEY_LEN
                    &&& signed.message == message
                    &&& signed.signature_cesr@ == encoded(ED25519_SIG_ID, signature@)
                    &&& signed.public_key_cesr@ == encoded(ED25519_PUB_KEY_ID, public_key@)
                    &&& decoded(ED25519_SIG_ID, signed.signature_cesr@) == Some(signature@)
                    &&& decoded(ED25519_PUB_KEY_ID, signed.public_key_cesr@) == Some(public_key@)
                    &&& well_shaped(signed@)
                },
                Err(e) => e is Crypto && if signature@.len() != SIGNATURE_LEN {
                    e.detail() == wrong_length(
                        "Invalid Ed25519 signature length: "@,
                        signature@.len(),
                        "64"@,
                    )
                } else {
                    public_key@.len() != PUBLIC_KEY_LEN && e.detail() == wrong_length(
                        "Invalid Ed25519 public key length: "@,
                        public_key@.len(),
                        "32"@,
                    )
                },
            },
    {
        let signature_cesr = match encode_signature(signature.as_slice()) {
            Ok(text) => text,
            Err(e) => { return Err(e); },
        };
        let public_key_cesr = match encode_public_key(public_key.as_slice()) {
            Ok(text) => text,
            Err(e) => { return Err(e); },
        };
        Ok(SignedMessage { message, signature_cesr, public_key_cesr })
    }

    /// The raw signature bytes; text that frames no signature is a
    /// framing error.
    pub fn get_signature(&self) -> (r: Result<Vec<u8>, TspError>)
        ensures
            match r {
                Ok(bytes) => decoded(ED25519_SIG_ID, self.signature_cesr@) == Some(bytes@),
                Err(e) => refuses(e, ED25519_SIG_ID, self.signature_cesr@),
            },
    {
        decode_signature(self.signature_cesr.as_str())
    }

    /// The raw public key bytes; text that frames no public key is a
    /// framing error.
    pub fn get_public_key(&self) -> (r: Result<Vec<u8>, TspError>)
        ensures
            match r {
                Ok(bytes) => decoded(ED25519_PUB_KEY_ID, self.public_key_cesr@) == Some(bytes@),
                Err(e) => refuses(e, ED25519_PUB_KEY_ID, self.public_key_cesr@),
            },
    {
        decode_public_key(self.public_key_cesr.as_str())
    }

    /// Serializes the signed message. Always succeeds.
    pub fn to_bytes(&self) -> (r: Result<Vec<u8>, TspError>)
        ensures
            r matches Ok(bytes) && bytes@ == signed_bytes(self@) && signed_of_bytes(bytes@)
                == Some(self@),
    {
        let mut fields: Vec<Vec<u8>> = Vec::new();
        fields.push(clone_bytes(&self.message));
        fields.push(write_text(self.signature_cesr.as_str()));
        fields.push(write_text(self.public_key_cesr.as_str()));
        assert(fields_view(fields) =~= signed_fields(self@));
        let bytes = join(&fields);
        proof {
            lemma_signed_round_trip(self@);
        }
        Ok(bytes)
    }

    /// Deserializes a signed message; bytes that serialize none are a
    /// message format error.
    pub fn from_bytes(data: &[u8]) -> (r: Result<Self, TspError>)
        ensures
            match r {
                Ok(signed) => signed_of_bytes(data@) == Some(signed@),
                Err(e) => signed_of_bytes(data@) is None && e is MessageFormat && e.detail()
                    == "malformed signed message"@,
            },
    {
        let mut fields = match split(data) {
            Some(fields) => fields,
            None => { return Err(malformed()); },
        };
        let ghost all = fields_view(fields);
        if fields.len() != 3 {
            return Err(malformed());
        }
        let key = take_last(&mut fields);
        let signature = take_last(&mut fields);
        let message = take_last(&mut fields);
        assert(message@ == all[0] && signature@ == all[1] && key@ == all[2]);
        let signature_cesr = match text_from_utf8(signature) {
            Some(text) => text,
            None => { return Err(malformed()); },
        };
        let public_key_cesr = match text_from_utf8(key) {
            Some(text) => text,
            None => { return Err(malformed()); },
        };
        Ok(SignedMessage { message, signature_cesr, public_key_cesr })
    }

    /// Checks the shape of the signed message, and only its shape: that
    /// signature and key unframe to 64 and 32 bytes. The signature itself
    /// is not checked here; that is what [`verify_signature`] does.
    pub fn verify(&self) -> (r: Result<(), TspError>)
        ensures
            r is Ok <==> well_shaped(self@),
            r matches Err(e) ==> match (
                decoded(ED25519_SIG_ID, self.signature_cesr@),
                decoded(ED25519_PUB_KEY_ID, self.public_key_cesr@),
            ) {
                (None, _) => refuses(e, ED25519_SIG_ID, self.signature_cesr@),
                (Some(_), None) => refuses(e, ED25519_PUB_KEY_ID, self.public_key_cesr@),
                (Some(signature), Some(_)) => e is Crypto && e.detail() == (if signature.len()
                    != SIGNATURE_LEN {
                    "Invalid Ed25519 signature length"@
                } else {
                    "Invalid Ed25519 public key length"@
                }),
            },
    {
        let signature = match self.get_signature() {
            Ok(bytes) => bytes,
            Err(e) => { return Err(e); },
        };
        let public_key = match self.get_public_key() {
            Ok(bytes) => bytes,
            Err(e) => { return Err(e); },
        };
        if signature.len() != SIGNATURE_LEN {
            return Err(TspError::Crypto(String::from_str("Invalid Ed25519 signature length")));
        }
        if public_key.len() != PUBLIC_KEY_LEN {
            return Err(TspError::Crypto(String::from_str("Invalid Ed25519 public key length")));
        }
        Ok(())
    }
}

/// Signs a message with a keypair.
///
/// Always succeeds. The result carries the message, and it is both well
/// shaped and authentic under the keypair that signed it.
pub fn sign_message(message: &[u8], keypair: &Ed25519Keypair) -> (r: Result<SignedMessage, TspError>)
    ensures
        r matches Ok(signed) && {
            &&& signed.message@ == message@
            &&& well_shaped(signed@)
            &&& authentic(signed@, *keypair)
            &&& decoded(ED25519_PUB_KEY_ID, signed.public_key_cesr@) == Some(keypair.public_view())
        },
{
    let signature = match keypair.sign(message) {
        Ok(signature) => signature,
        Err(e) => { return Err(TspError::Crypto(e.to_string())); },
    };
    let public_key = slice_to_vec(keypair.public_key_bytes());
    SignedMessage::new(slice_to_vec(message), signature, public_key)
}

/// Checks the signature of a signed message against a keypair.
///
/// Succeeds exactly when the signature text frames a signature that the
/// keypair accepts for the message. A signature that does not unframe is
/// a framing error; any other failure is the one crypto error
/// "Signature verification failed", which does not say which check
/// failed.
pub fn verify_signature(signed: &SignedMessage, keypair: &Ed25519Keypair) -> (r: Result<
    (),
    TspError,
>)
    ensures
        r is Ok <==> authentic(signed@, *keypair),
        r matches Err(e) ==> if decoded(ED25519_SIG_ID, signed.signature_cesr@) is None {
            refuses(e, ED25519_SIG_ID, signed.signature_cesr@)
        } else {
            e is Crypto && e.detail() == "Signature verification failed"@
        },
{
    let signature = match signed.get_signature() {
        Ok(bytes) => bytes,
        Err(e) => { return Err(e); },
    };
    match keypair.verify(signed.message.as_slice(), signature.as_slice()) {
        Ok(_) => Ok(()),
        Err(_) => Err(TspError::Crypto(String::from_str("Signature verification failed"))),
    }
}

} // verus!

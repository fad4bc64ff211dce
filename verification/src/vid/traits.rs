//! What a party can do with an identifier, and the key material it
//! hands out.

use vstd::prelude::*;
use vstd::string::StringExecFns;
use crate::text::{decimal, decimal_text};
use crate::tsp::types::clone_bytes;
use crate::vid::error::{L1Error, L1VidVerifyError};

verus! {

/// Base of every identifier: its text and its transport address.
pub trait Vid {
    /// Transport address type.
    type Address;

    /// The identifier as text.
    fn as_str(&self) -> &str;

    /// Resolves the transport address of the identifier.
    fn resolve_address(&self) -> Result<Self::Address, L1Error>;
}

/// Controller-side view: access to the secret keys of an identifier that
/// is controlled locally.
pub trait ControllerView {
    /// The encryption secret key.
    fn sk_e(&self) -> Result<PrivateKey, L1Error>;

    /// The signing secret key.
    fn sk_s(&self) -> Result<PrivateKey, L1Error>;
}

/// Evaluator-side view: access to the public keys of an identifier.
pub trait EvaluatorView {
    /// The encryption public key.
    fn pk_e(&self) -> Result<PublicKey, L1Error>;

    /// The signing public key.
    fn pk_s(&self) -> Result<PublicKey, L1Error>;
}

/// Integrity and policy validation of an identifier.
pub trait Verifiable {
    /// Verifies integrity, state, policy and records.
    fn verify(&self) -> Result<(), L1VidVerifyError>;
}

/// Mathematical value of a key: its bytes and what it is for.
pub struct KeyView {
    pub bytes: Seq<u8>,
    pub purpose: Seq<char>,
}

/// The text that describes a key of the given kind.
pub open spec fn key_rendering(kind: Seq<char>, key: KeyView) -> Seq<char> {
    kind + "("@ + key.purpose + "; "@ + decimal_text(key.bytes.len()) + " bytes)"@
}

/// Secret key material, for decryption or signing.
#[derive(Debug)]
pub struct PrivateKey {
    bytes: Vec<u8>,
    purpose: String,
}

impl View for PrivateKey {
    type V = KeyView;

    closed spec fn view(&self) -> KeyView {
        KeyView { bytes: self.bytes@, purpose: self.purpose@ }
    }
}

impl Clone for PrivateKey {
    fn clone(&self) -> (r: Self)
        ensures
            r@ == self@,
    {
        PrivateKey { bytes: clone_bytes(&self.bytes), purpose: self.purpose.clone() }
    }
}

impl PrivateKey {
    /// A private key with the given purpose, "encryption" or "signing".
    pub fn new(bytes: Vec<u8>, purpose: &str) -> (r: Self)
        ensures
            r@ == (KeyView { bytes: bytes@, purpose: purpose@ }),
    {
        PrivateKey { bytes, purpose: purpose.to_owned() }
    }

    /// The raw key bytes.
    pub fn bytes(&self) -> (r: &[u8])
        ensures
            r@ == self@.bytes,
    {
        self.bytes.as_slice()
    }

    /// The purpose label.
    pub fn purpose(&self) -> (r: &str)
        ensures
            r@ == self@.purpose,
    {
        self.purpose.as_str()
    }

    /// Describes the key without showing its bytes.
    pub fn to_string(&self) -> (r: String)
        ensures
            r@ == key_rendering("PrivateKey"@, self@),
    {
        String::from_str("PrivateKey").concat("(").concat(self.purpose.as_str()).concat(
            "; ",
        ).concat(decimal(self.bytes.len() as u64).as_str()).concat(" bytes)")
    }
}

/// Public key material, for verification or encryption.
#[derive(Debug)]
pub struct PublicKey {
    bytes: Vec<u8>,
    purpose: String,
}

impl View for PublicKey {
    type V = KeyView;

    closed spec fn view(&self) -> KeyView {
        KeyView { bytes: self.bytes@, purpose: self.purpose@ }
    }
}

impl Clone for PublicKey {
    fn clone(&self) -> (r: Self)
        ensures
            r@ == self@,
    {
        PublicKey { bytes: clone_bytes(&self.bytes), purpose: self.purpose.clone() }
    }
}

impl PublicKey {
    /// A public key with the given purpose, "encryption" or "signing".
    pub fn new(bytes: Vec<u8>, purpose: &str) -> (r: Self)
        ensures
            r@ == (KeyView { bytes: bytes@, purpose: purpose@ }),
    {
        PublicKey { bytes, purpose: purpose.to_owned() }
    }

    /// The raw key bytes.
    pub fn bytes(&self) -> (r: &[u8])
        ensures
            r@ == self@.bytes,
    {
        self.bytes.as_slice()
    }

    /// The purpose label.
    pub fn purpose(&self) -> (r: &str)
        ensures
            r@ == self@.purpose,
    {
        self.purpose.as_str()
    }

    /// Describes the key.
    pub fn to_string(&self) -> (r: String)
        ensures
            r@ == key_rendering("PublicKey"@, self@),
    {
        String::from_str("PublicKey").concat("(").concat(self.purpose.as_str()).concat(
            "; ",
        ).concat(decimal(self.bytes.len() as u64).as_str()).concat(" bytes)")
    }
}

} // verus!

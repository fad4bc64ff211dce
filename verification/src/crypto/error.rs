//! Errors of the cryptographic layer.

use vstd::prelude::*;
use vstd::string::StringExecFns;
use crate::text::{decimal, decimal_text, prefixed_hex, prefixed_hex_text};

verus! {

/// Errors of the cryptographic layer.
#[derive(Debug)]
pub enum CryptoError {
    /// Internal error for which no better variant exists.
    Internal(String),
    /// Invalid or malformed input.
    InvalidInput(String),
    /// Key generation failed.
    KeyGeneration(String),
    /// Secret key has the wrong length.
    InvalidSecretKeyLength { expected: usize, actual: usize },
    /// Public key has the wrong length.
    InvalidPublicKeyLength { expected: usize, actual: usize },
    /// Signing failed.
    Signing(String),
    /// Signature verification failed.
    VerificationFailed,
    /// Hashing failed.
    Hashing(String),
    /// Encryption or decryption failed.
    Aead(String),
    /// Key agreement failed.
    KeyAgreement(String),
    /// Multibase encoding or decoding failed.
    Multibase(String),
    /// Unknown or unsupported multicodec code.
    UnsupportedMulticodec(u64),
    /// Serialization or deserialization failed.
    Serialization(String),
    /// The entropy source failed.
    RandomnessFailure,
    /// Random generation is switched off.
    RandomnessDisabled,
}

impl CryptoError {
    /// Human-readable rendering.
    pub open spec fn rendering(self) -> Seq<char> {
        match self {
            CryptoError::Internal(m) => "Internal crypto error: "@ + m@,
            CryptoError::InvalidInput(m) => "Invalid input: "@ + m@,
            CryptoError::KeyGeneration(m) => "Key generation failed: "@ + m@,
            CryptoError::InvalidSecretKeyLength { expected, actual } => {
                "Invalid secret key length (expected "@ + decimal_text(expected as nat) + ", got "@
                    + decimal_text(actual as nat) + ")"@
            },
            CryptoError::InvalidPublicKeyLength { expected, actual } => {
                "Invalid public key length (expected "@ + decimal_text(expected as nat) + ", got "@
                    + decimal_text(actual as nat) + ")"@
            },
            CryptoError::Signing(m) => "Signing failed: "@ + m@,
            CryptoError::VerificationFailed => "Signature verification failed"@,
            CryptoError::Hashing(m) => "Hashing failed: "@ + m@,
            CryptoError::Aead(m) => "AEAD operation failed: "@ + m@,
            CryptoError::KeyAgreement(m) => "Key agreement failed: "@ + m@,
            CryptoError::Multibase(m) => "Multibase error: "@ + m@,
            CryptoError::UnsupportedMulticodec(code) => {
                "Unsupported or unknown multicodec code: "@ + prefixed_hex_text(code as nat)
            },
            CryptoError::Serialization(m) => "Serialization error: "@ + m@,
            CryptoError::RandomnessFailure => "Failed to acquire secure randomness"@,
            CryptoError::RandomnessDisabled => "Random generation is disabled"@,
        }
    }

    /// Human-readable rendering.
    pub fn to_string(&self) -> (r: String)
        ensures
            r@ == self.rendering(),
    {
        match self {
            CryptoError::Internal(m) => String::from_str("Internal crypto error: ").concat(
                m.as_str(),
            ),
            CryptoError::InvalidInput(m) => String::from_str("Invalid input: ").concat(m.as_str()),
            CryptoError::KeyGeneration(m) => String::from_str("Key generation failed: ").concat(
                m.as_str(),
            ),
            CryptoError::InvalidSecretKeyLength { expected, actual } => {
                let e = decimal(*expected as u64);
                let a = decimal(*actual as u64);
                String::from_str("Invalid secret key length (expected ").concat(e.as_str()).concat(
                    ", got ",
                ).concat(a.as_str()).concat(")")
            },
            CryptoError::InvalidPublicKeyLength { expected, actual } => {
                let e = decimal(*expected as u64);
                let a = decimal(*actual as u64);
                String::from_str("Invalid public key length (expected ").concat(e.as_str()).concat(
                    ", got ",
                ).concat(a.as_str()).concat(")")
            },
            CryptoError::Signing(m) => String::from_str("Signing failed: ").concat(m.as_str()),
            CryptoError::VerificationFailed => String::from_str("Signature verification failed"),
            CryptoError::Hashing(m) => String::from_str("Hashing failed: ").concat(m.as_str()),
            CryptoError::Aead(m) => String::from_str("AEAD operation failed: ").concat(m.as_str()),
            CryptoError::KeyAgreement(m) => String::from_str("Key agreement failed: ").concat(
                m.as_str(),
            ),
            CryptoError::Multibase(m) => String::from_str("Multibase error: ").concat(m.as_str()),
            CryptoError::UnsupportedMulticodec(code) => {
                let c = prefixed_hex(*code);
                String::from_str("Unsupported or unknown multicodec code: ").concat(c.as_str())
            },
            CryptoError::Serialization(m) => String::from_str("Serialization error: ").concat(
                m.as_str(),
            ),
            CryptoError::RandomnessFailure => String::from_str(
                "Failed to acquire secure randomness",
            ),
            CryptoError::RandomnessDisabled => String::from_str("Random generation is disabled"),
        }
    }

    /// An invalid-input error with the given detail.
    pub fn invalid_input(detail: &str) -> (r: Self)
        ensures
            r matches CryptoError::InvalidInput(m) && m@ == detail@,
    {
        CryptoError::InvalidInput(detail.to_owned())
    }
}

/// Failure of an authenticated encryption operation. It says nothing of
/// which check failed.
#[derive(Debug)]
pub struct AeadError;

impl AeadError {
    /// Human-readable rendering.
    pub fn to_string(&self) -> (r: String)
        ensures
            r@ == "AEAD operation failed"@,
    {
        String::from_str("AEAD operation failed")
    }

}

impl From<AeadError> for CryptoError {
    /// The general error that stands for an encryption failure.
    fn from(e: AeadError) -> (r: CryptoError)
        ensures
            r matches CryptoError::Aead(m) && m@ == "AEAD operation failed"@,
    {
        CryptoError::Aead(String::from_str("AEAD operation failed"))
    }
}

impl vstd::std_specs::convert::FromSpecImpl<AeadError> for CryptoError {
    open spec fn obeys_from_spec() -> bool {
        false
    }

    open spec fn from_spec(e: AeadError) -> CryptoError {
        CryptoError::VerificationFailed
    }
}

impl From<String> for CryptoError {
    /// Text alone reports invalid input.
    fn from(s: String) -> (r: CryptoError) {
        CryptoError::InvalidInput(s)
    }
}

impl vstd::std_specs::convert::FromSpecImpl<String> for CryptoError {
    open spec fn obeys_from_spec() -> bool {
        true
    }

    open spec fn from_spec(s: String) -> CryptoError {
        CryptoError::InvalidInput(s)
    }
}

impl<'a> From<&'a str> for CryptoError {
    /// Text alone reports invalid input.
    fn from(s: &'a str) -> (r: CryptoError)
        ensures
            r matches CryptoError::InvalidInput(m) && m@ == s@,
    {
        CryptoError::invalid_input(s)
    }
}

impl<'a> vstd::std_specs::convert::FromSpecImpl<&'a str> for CryptoError {
    open spec fn obeys_from_spec() -> bool {
        false
    }

    open spec fn from_spec(s: &'a str) -> CryptoError {
        CryptoError::VerificationFailed
    }
}

} // verus!

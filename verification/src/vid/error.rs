//! Errors of identifier operations.

use vstd::prelude::*;
use vstd::string::StringExecFns;

verus! {

/// Errors of identifier resolution and key access.
#[derive(Clone, Debug)]
pub enum L1Error {
    /// Address resolution failed.
    AddressResolutionFailed(String),
    /// The secret key is not available to this party.
    SecretKeyNotAvailable(String),
    /// Public key retrieval failed.
    PublicKeyRetrievalFailed(String),
    /// The identifier is invalid or malformed.
    InvalidVid(String),
    /// Key material is unavailable or corrupted.
    KeyMaterialUnavailable(String),
    /// A cryptographic operation failed.
    CryptoError(String),
    /// Any other failure.
    Other(String),
}

impl L1Error {
    /// Human-readable rendering.
    pub open spec fn rendering(self) -> Seq<char> {
        match self {
            L1Error::AddressResolutionFailed(m) => "Address resolution failed: "@ + m@,
            L1Error::SecretKeyNotAvailable(m) => "Secret key not available: "@ + m@,
            L1Error::PublicKeyRetrievalFailed(m) => "Public key retrieval failed: "@ + m@,
            L1Error::InvalidVid(m) => "Invalid VID: "@ + m@,
            L1Error::KeyMaterialUnavailable(m) => "Key material unavailable: "@ + m@,
            L1Error::CryptoError(m) => "Cryptographic operation failed: "@ + m@,
            L1Error::Other(m) => "Layer-1 error: "@ + m@,
        }
    }

    /// Human-readable rendering.
    pub fn to_string(&self) -> (r: String)
        ensures
            r@ == self.rendering(),
    {
        match self {
            L1Error::AddressResolutionFailed(m) => String::from_str(
                "Address resolution failed: ",
            ).concat(m.as_str()),
            L1Error::SecretKeyNotAvailable(m) => String::from_str(
                "Secret key not available: ",
            ).concat(m.as_str()),
            L1Error::PublicKeyRetrievalFailed(m) => String::from_str(
                "Public key retrieval failed: ",
            ).concat(m.as_str()),
            L1Error::InvalidVid(m) => String::from_str("Invalid VID: ").concat(m.as_str()),
            L1Error::KeyMaterialUnavailable(m) => String::from_str(
                "Key material unavailable: ",
            ).concat(m.as_str()),
            L1Error::CryptoError(m) => String::from_str("Cryptographic operation failed: ").concat(
                m.as_str(),
            ),
            L1Error::Other(m) => String::from_str("Layer-1 error: ").concat(m.as_str()),
        }
    }
}

/// Errors of identifier verification.
#[derive(Clone, Debug)]
pub enum L1VidVerifyError {
    /// Signature verification failed.
    SignatureVerificationFailed(String),
    /// The identifier has expired.
    VidExpired,
    /// The identifier's status is invalid, for instance revoked.
    InvalidStatus(String),
    /// A policy check failed.
    PolicyCheckFailed(String),
    /// The identifier's records are inconsistent or incomplete.
    RecordsInvalid(String),
    /// Trust chain verification failed.
    TrustChainFailed(String),
    /// Any other failure.
    Other(String),
}

impl L1VidVerifyError {
    /// Human-readable rendering.
    pub open spec fn rendering(self) -> Seq<char> {
        match self {
            L1VidVerifyError::SignatureVerificationFailed(m) => {
                "VID signature verification failed: "@ + m@
            },
            L1VidVerifyError::VidExpired => "VID has expired"@,
            L1VidVerifyError::InvalidStatus(m) => "VID status invalid: "@ + m@,
            L1VidVerifyError::PolicyCheckFailed(m) => "VID policy check failed: "@ + m@,
            L1VidVerifyError::RecordsInvalid(m) => "VID records invalid: "@ + m@,
            L1VidVerifyError::TrustChainFailed(m) => "Trust chain verification failed: "@ + m@,
            L1VidVerifyError::Other(m) => "VID verification error: "@ + m@,
        }
    }

    /// Human-readable rendering.
    pub fn to_string(&self) -> (r: String)
        ensures
            r@ == self.rendering(),
    {
        match self {
            L1VidVerifyError::SignatureVerificationFailed(m) => String::from_str(
                "VID signature verification failed: ",
            ).concat(m.as_str()),
            L1VidVerifyError::VidExpired => String::from_str("VID has expired"),
            L1VidVerifyError::InvalidStatus(m) => String::from_str("VID status invalid: ").concat(
                m.as_str(),
            ),
            L1VidVerifyError::PolicyCheckFailed(m) => String::from_str(
                "VID policy check failed: ",
            ).concat(m.as_str()),
            L1VidVerifyError::RecordsInvalid(m) => String::from_str(
                "VID records invalid: ",
            ).concat(m.as_str()),
            L1VidVerifyError::TrustChainFailed(m) => String::from_str(
                "Trust chain verification failed: ",
            ).concat(m.as_str()),
            L1VidVerifyError::Other(m) => String::from_str("VID verification error: ").concat(
                m.as_str(),
            ),
        }
    }
}

} // verus!

//! Error taxonomy of the protocol engine.

use vstd::prelude::*;
use vstd::string::StringExecFns;
use crate::crypto::error::CryptoError;
use crate::vid::error::L1Error;

verus! {

/// Everything that can go wrong in a protocol operation.
#[derive(Debug)]
pub enum TspError {
    Crypto(String),
    Storage(String),
    Vid(String),
    Cesr(String),
    Transport(String),
    MessageFormat(String),
    Relationship(String),
    UnverifiedVid(String),
    MissingPrivateVid(String),
    UnverifiedSource(String),
    InvalidRoute(String),
    InvalidNextHop(String),
    UnresolvedNextHop(String),
    MissingDropOff(String),
    ThreadIdMismatch,
    IoError(String),
    InvalidState(String),
    Custom(String),
}

impl TspError {
    /// The fixed text that introduces each kind of error in its rendering.
    pub open spec fn prefix(self) -> Seq<char> {
        match self {
            TspError::Crypto(_) => "Crypto error: "@,
            TspError::Storage(_) => "Storage error: "@,
            TspError::Vid(_) => "VID error: "@,
            TspError::Cesr(_) => "CESR encoding error: "@,
            TspError::Transport(_) => "Transport error: "@,
            TspError::MessageFormat(_) => "Message format error: "@,
            TspError::Relationship(_) => "Relationship error: "@,
            TspError::UnverifiedVid(_) => "Unverified VID: "@,
            TspError::MissingPrivateVid(_) => "Missing private VID: "@,
            TspError::UnverifiedSource(_) => "Unverified source: "@,
            TspError::InvalidRoute(_) => "Invalid route: "@,
            TspError::InvalidNextHop(_) => "Invalid next hop: "@,
            TspError::UnresolvedNextHop(_) => "Unresolved next hop: "@,
            TspError::MissingDropOff(_) => "Missing drop-off: "@,
            TspError::ThreadIdMismatch => "Thread ID mismatch"@,
            TspError::IoError(_) => "IO error: "@,
            TspError::InvalidState(_) => "Invalid state: "@,
            TspError::Custom(_) => "Custom: "@,
        }
    }

    /// The free-form detail carried by the error; empty for a thread id
    /// mismatch, which carries none.
    pub open spec fn detail(self) -> Seq<char> {
        match self {
            TspError::Crypto(m) => m@,
            TspError::Storage(m) => m@,
            TspError::Vid(m) => m@,
            TspError::Cesr(m) => m@,
            TspError::Transport(m) => m@,
            TspError::MessageFormat(m) => m@,
            TspError::Relationship(m) => m@,
            TspError::UnverifiedVid(m) => m@,
            TspError::MissingPrivateVid(m) => m@,
            TspError::UnverifiedSource(m) => m@,
            TspError::InvalidRoute(m) => m@,
            TspError::InvalidNextHop(m) => m@,
            TspError::UnresolvedNextHop(m) => m@,
            TspError::MissingDropOff(m) => m@,
            TspError::ThreadIdMismatch => Seq::empty(),
            TspError::IoError(m) => m@,
            TspError::InvalidState(m) => m@,
            TspError::Custom(m) => m@,
        }
    }

    /// Human-readable rendering: the kind's prefix followed by the detail.
    pub fn to_string(&self) -> (r: String)
        ensures
            r@ == self.prefix() + self.detail(),
    {
        match self {
            TspError::Crypto(m) => String::from_str("Crypto error: ").concat(m.as_str()),
            TspError::Storage(m) => String::from_str("Storage error: ").concat(m.as_str()),
            TspError::Vid(m) => String::from_str("VID error: ").concat(m.as_str()),
            TspError::Cesr(m) => String::from_str("CESR encoding error: ").concat(m.as_str()),
            TspError::Transport(m) => String::from_str("Transport error: ").concat(m.as_str()),
            TspError::MessageFormat(m) => String::from_str("Message format error: ").concat(
                m.as_str(),
            ),
            TspError::Relationship(m) => String::from_str("Relationship error: ").concat(
                m.as_str(),
            ),
            TspError::UnverifiedVid(m) => String::from_str("Unverified VID: ").concat(m.as_str()),
            TspError::MissingPrivateVid(m) => String::from_str("Missing private VID: ").concat(
                m.as_str(),
            ),
            TspError::UnverifiedSource(m) => String::from_str("Unverified source: ").concat(
                m.as_str(),
            ),
            TspError::InvalidRoute(m) => String::from_str("Invalid route: ").concat(m.as_str()),
            TspError::InvalidNextHop(m) => String::from_str("Invalid next hop: ").concat(
                m.as_str(),
            ),
            TspError::UnresolvedNextHop(m) => String::from_str("Unresolved next hop: ").concat(
                m.as_str(),
            ),
            TspError::MissingDropOff(m) => String::from_str("Missing drop-off: ").concat(
                m.as_str(),
            ),
            TspError::ThreadIdMismatch => {
                let r = String::from_str("Thread ID mismatch");
                assert(r@ + Seq::<char>::empty() =~= r@);
                r
            },
            TspError::IoError(m) => String::from_str("IO error: ").concat(m.as_str()),
            TspError::InvalidState(m) => String::from_str("Invalid state: ").concat(m.as_str()),
            TspError::Custom(m) => String::from_str("Custom: ").concat(m.as_str()),
        }
    }
}

impl From<CryptoError> for TspError {
    /// An error of the cryptographic layer, by its rendering.
    fn from(e: CryptoError) -> (r: TspError)
        ensures
            r is Crypto,
            r.detail() == e.rendering(),
    {
        TspError::Crypto(e.to_string())
    }
}

impl vstd::std_specs::convert::FromSpecImpl<CryptoError> for TspError {
    open spec fn obeys_from_spec() -> bool {
        false
    }

    open spec fn from_spec(e: CryptoError) -> TspError {
        TspError::ThreadIdMismatch
    }
}

impl From<L1Error> for TspError {
    /// An error of identifier resolution, by its rendering.
    fn from(e: L1Error) -> (r: TspError)
        ensures
            r is Vid,
            r.detail() == e.rendering(),
    {
        TspError::Vid(e.to_string())
    }
}

impl vstd::std_specs::convert::FromSpecImpl<L1Error> for TspError {
    open spec fn obeys_from_spec() -> bool {
        false
    }

    open spec fn from_spec(e: L1Error) -> TspError {
        TspError::ThreadIdMismatch
    }
}

} // verus!

//! Verifiable identifiers: the views a party can have of an identifier,
//! key material, and the peer identifier.

pub mod error;
pub mod peer;
pub mod traits;

pub use crate::vid::error::{L1Error, L1VidVerifyError};
pub use crate::vid::peer::PeerVid;
pub use crate::vid::traits::{
    ControllerView, EvaluatorView, PrivateKey, PublicKey, Verifiable, Vid,
};

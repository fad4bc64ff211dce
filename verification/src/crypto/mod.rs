//! Cryptographic capabilities: signing, hashing, key agreement and
//! authenticated encryption, each as a narrow trait with one
//! implementation.

pub mod aead;
pub mod ed25519;
pub mod encoding;
pub mod error;
pub mod hash;
pub mod random;
pub mod traits;
pub mod x25519;

pub use crate::crypto::ed25519::Ed25519Keypair;
pub use crate::crypto::error::{AeadError, CryptoError};
pub use crate::crypto::traits::{Aead, Hasher, KeyAgreement, KeyPair, Signer, Verifier};
pub use crate::crypto::x25519::X25519Keypair;

//! Trust Spanning Protocol engine: relationship lifecycle, routing,
//! sealed envelopes, the wallet, and the handler that ties them together.

pub mod cesr_utils;
pub mod crypto;
pub mod error;
pub mod handler;
pub mod message;
pub mod payload;
pub mod relationship;
pub mod routing;
pub mod signatures;
pub mod storage;
pub(crate) mod string_map;
pub mod types;
pub mod wallet;
pub mod wire;

pub use crate::tsp::cesr_utils::{
    decode_digest, decode_nonce, decode_public_key, decode_signature, encode_digest, encode_nonce,
    encode_public_key, encode_signature,
};
pub use crate::tsp::crypto::{open_payload, seal_payload, EncryptedMessage};
pub use crate::tsp::error::TspError;
pub use crate::tsp::handler::TspHandler;
pub use crate::tsp::message::TspMessage;
pub use crate::tsp::relationship::RelationshipManager;
pub use crate::tsp::routing::{forward_message, process_routed_message, RouteTable};
pub use crate::tsp::signatures::{sign_message, verify_signature, SignedMessage};
pub use crate::tsp::storage::WalletSnapshot;
pub use crate::tsp::types::{MessageType, ReceivedTspMessage, RelationshipStatus, TspPayload};
pub use crate::tsp::wallet::TspWallet;

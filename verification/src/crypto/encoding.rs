//! Base64url text encoding without padding.

use vstd::prelude::*;

verus! {

#[verifier::external_type_specification]
#[verifier::external_body]
pub struct ExDecodeError(base64::DecodeError);

/// The unpadded URL-safe base64 text of `data`, as the `base64` crate
/// writes it.
pub uninterp spec fn base64url_text(data: Seq<u8>) -> Seq<char>;

/// The bytes that the `base64` crate reads from unpadded URL-safe base64
/// text; `None` when it refuses the text.
pub uninterp spec fn base64url_bytes(text: Seq<char>) -> Option<Seq<u8>>;

/// Calls `Engine::encode` of `URL_SAFE_NO_PAD`. Decoding the text gives
/// the data back.
#[verifier::external_body]
fn encode_raw(data: &[u8]) -> (r: String)
    ensures
        r@ == base64url_text(data@),
        base64url_bytes(r@) == Some(data@),
{
    base64::Engine::encode(&base64::engine::general_purpose::URL_SAFE_NO_PAD, data)
}

/// Calls `Engine::decode` of `URL_SAFE_NO_PAD`.
#[verifier::external_body]
fn decode_raw(text: &str) -> (r: Result<Vec<u8>, base64::DecodeError>)
    ensures
        match r {
            Ok(data) => base64url_bytes(text@) == Some(data@),
            Err(_) => base64url_bytes(text@) is None,
        },
{
    base64::Engine::decode(&base64::engine::general_purpose::URL_SAFE_NO_PAD, text)
}

/// Encodes bytes as base64url text without padding. Decoding the text
/// gives the bytes back.
pub fn base64url_encode(data: &[u8]) -> (r: String)
    ensures
        r@ == base64url_text(data@),
        base64url_bytes(r@) == Some(data@),
{
    encode_raw(data)
}

/// Decodes base64url text without padding.
pub fn base64url_decode(s: &str) -> (r: Result<Vec<u8>, base64::DecodeError>)
    ensures
        match r {
            Ok(data) => base64url_bytes(s@) == Some(data@),
            Err(_) => base64url_bytes(s@) is None,
        },
{
    decode_raw(s)
}

} // verus!

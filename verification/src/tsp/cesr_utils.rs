//! Text-safe framing of fixed-length cryptographic material.
//!
//! A value is framed with the type tag of its kind and its length, and
//! the frame is written in lower-case hexadecimal. Decoding reverses
//! both steps and refuses anything that is not such a frame of the
//! expected kind.

use vstd::prelude::*;
use vstd::bytes::{
    lemma_auto_spec_u32_to_from_le_bytes, lemma_auto_spec_u64_to_from_le_bytes,
    spec_u32_from_le_bytes, spec_u32_to_le_bytes, spec_u64_from_le_bytes, spec_u64_to_le_bytes,
    u32_from_le_bytes, u32_to_le_bytes, u64_from_le_bytes,
};
use vstd::slice::{slice_subrange, slice_to_vec};
use vstd::string::StringExecFns;
use vstd::utf8::encode_utf8;
use crate::text::{all_ascii, ascii_text, decimal, lemma_ascii_text};
use crate::tsp::error::TspError;
use crate::tsp::wire::{append_field, frame};

verus! {

/// Type tag of Ed25519 signatures (64 bytes).
pub const ED25519_SIG_ID: u32 = 0x0D40;

/// Type tag of Ed25519 public keys (32 bytes).
pub const ED25519_PUB_KEY_ID: u32 = 0x0D41;

/// Type tag of BLAKE2b-256 digests (32 bytes).
pub const BLAKE2B_256_ID: u32 = 0x0D42;

/// Type tag of AEAD nonces (12 bytes).
pub const NONCE_ID: u32 = 0x0D43;

/// Length of a signature in bytes.
pub const SIGNATURE_LEN: usize = 64;

/// Length of a public key in bytes.
pub const PUBLIC_KEY_LEN: usize = 32;

/// Length of a digest in bytes.
pub const DIGEST_LEN: usize = 32;

/// Length of a nonce in bytes.
pub const NONCE_LEN: usize = 12;

/// The ASCII code of the lower-case hexadecimal digit of a nibble.
pub open spec fn hex_code(nibble: int) -> u8 {
    if nibble < 10 {
        (48 + nibble) as u8
    } else {
        (87 + nibble) as u8
    }
}

/// The bytes of the lower-case hexadecimal text of `data`: two digits per
/// byte, high nibble first.
pub open spec fn hex_codes(data: Seq<u8>) -> Seq<u8> {
    Seq::new(
        2 * data.len(),
        |i: int|
            if i % 2 == 0 {
                hex_code(data[i / 2] as int / 16)
            } else {
                hex_code(data[i / 2] as int % 16)
            },
    )
}

/// The value of a hexadecimal digit given by its ASCII code, in either
/// case.
pub open spec fn hex_value(code: u8) -> Option<int> {
    if 65 <= code <= 70 {
        Some(code as int - 55)
    } else if 97 <= code <= 102 {
        Some(code as int - 87)
    } else if 48 <= code <= 57 {
        Some(code as int - 48)
    } else {
        None
    }
}

/// The bytes written by hexadecimal text given as its bytes: an even
/// number of hexadecimal digits, two per byte.
pub open spec fn unhex(codes: Seq<u8>) -> Option<Seq<u8>> {
    if codes.len() % 2 == 0 && forall|i: int|
        0 <= i < codes.len() ==> hex_value(#[trigger] codes[i]) is Some {
        Some(
            Seq::new(
                codes.len() / 2,
                |i: int|
                    (hex_value(codes[2 * i]).unwrap() * 16 + hex_value(
                        codes[2 * i + 1],
                    ).unwrap()) as u8,
            ),
        )
    } else {
        None
    }
}

/// Reading back hexadecimal text gives the bytes it was written from.
pub proof fn lemma_hex_round_trip(data: Seq<u8>)
    ensures
        all_ascii(hex_codes(data)),
        unhex(hex_codes(data)) == Some(data),
        unhex(encode_utf8(ascii_text(hex_codes(data)))) == Some(data),
{
    let codes = hex_codes(data);
    assert forall|i: int| 0 <= i < codes.len() implies hex_value(#[trigger] codes[i]) is Some
        && codes[i] < 128 by {
        let b = data[i / 2] as int;
        assert(0 <= b / 16 < 16 && 0 <= b % 16 < 16);
    }
    let back = unhex(codes).unwrap();
    assert forall|i: int| 0 <= i < data.len() implies back[i] == data[i] by {
        let b = data[i] as int;
        assert(0 <= b / 16 < 16 && 0 <= b % 16 < 16);
        assert((2 * i) / 2 == i && (2 * i + 1) / 2 == i);
        assert((2 * i) % 2 == 0 && (2 * i + 1) % 2 == 1);
        assert(hex_value(codes[2 * i]) == Some(b / 16));
        assert(hex_value(codes[2 * i + 1]) == Some(b % 16));
        assert((b / 16) * 16 + b % 16 == b);
    }
    assert(back =~= data);
    lemma_ascii_text(codes);
}

/// Calls `hex::encode`: two lower-case hexadecimal digits per byte, high
/// nibble first.
#[verifier::external_body]
fn hex_encode(data: &[u8]) -> (r: String)
    ensures
        r@ == ascii_text(hex_codes(data@)),
{
    hex::encode(data)
}

/// Calls `hex::decode`, which reads the text byte by byte: it accepts an
/// even number of hexadecimal digits in either case and nothing else.
#[verifier::external_body]
fn hex_decode(text: &str) -> (r: Option<Vec<u8>>)
    ensures
        match r {
            Some(data) => unhex(encode_utf8(text@)) == Some(data@),
            None => unhex(encode_utf8(text@)) is None,
        },
{
    hex::decode(text).ok()
}

/// The frame of `data` under a type tag: the tag in four bytes, then the
/// length-delimited data.
pub open spec fn framed(identifier: u32, data: Seq<u8>) -> Seq<u8> {
    spec_u32_to_le_bytes(identifier) + frame(data)
}

/// The data of a frame of the expected kind; `None` for anything else.
pub open spec fn unframed(identifier: u32, bytes: Seq<u8>) -> Option<Seq<u8>> {
    if bytes.len() >= 12 && spec_u32_from_le_bytes(bytes.subrange(0, 4)) == identifier
        && spec_u64_from_le_bytes(bytes.subrange(4, 12)) == bytes.len() - 12 {
        Some(bytes.subrange(12, bytes.len() as int))
    } else {
        None
    }
}

/// The detail of the framing error that refuses `text`: it says whether
/// the text was not hexadecimal or not a frame of the expected kind.
pub open spec fn refusal_detail(text: Seq<char>) -> Seq<char> {
    if unhex(encode_utf8(text)) is None {
        "Invalid hex encoding"@
    } else {
        "Failed to decode CESR: invalid format"@
    }
}

/// `e` is the framing error that refuses `text` as a value of the given
/// kind.
pub open spec fn refuses(e: TspError, identifier: u32, text: Seq<char>) -> bool {
    decoded(identifier, text) is None && e is Cesr && e.detail() == refusal_detail(text)
}

/// The text that carries `data` under a type tag.
pub open spec fn encoded(identifier: u32, data: Seq<u8>) -> Seq<char> {
    ascii_text(hex_codes(framed(identifier, data)))
}

/// The data that a text carries under a type tag; `None` when the text
/// is not hexadecimal or not a frame of that kind.
pub open spec fn decoded(identifier: u32, text: Seq<char>) -> Option<Seq<u8>> {
    match unhex(encode_utf8(text)) {
        Some(bytes) => unframed(identifier, bytes),
        None => None,
    }
}

/// Decoding an encoded value under the same tag gives the value back;
/// under another tag it gives nothing.
pub proof fn lemma_codec_round_trip(identifier: u32, other: u32, data: Seq<u8>)
    requires
        data.len() <= u64::MAX,
    ensures
        decoded(identifier, encoded(identifier, data)) == Some(data),
        other != identifier ==> decoded(other, encoded(identifier, data)) is None,
{
    let bytes = framed(identifier, data);
    lemma_hex_round_trip(bytes);
    lemma_auto_spec_u32_to_from_le_bytes();
    lemma_auto_spec_u64_to_from_le_bytes();
    let tag = spec_u32_to_le_bytes(identifier);
    let len = spec_u64_to_le_bytes(data.len() as u64);
    assert(bytes == tag + (len + data));
    assert(bytes.subrange(0, 4) =~= tag);
    assert(bytes.subrange(4, 12) =~= len);
    assert(bytes.subrange(12, bytes.len() as int) =~= data);
}

/// Frames data under a type tag.
fn encode_as_cesr(identifier: u32, data: &[u8]) -> (r: Vec<u8>)
    ensures
        r@ == framed(identifier, data@),
{
    let mut output = u32_to_le_bytes(identifier);
    append_field(&mut output, data);
    output
}

/// The error that reports text which carries no value of the expected
/// kind.
fn not_a_frame() -> (e: TspError)
    ensures
        e is Cesr,
        e.detail() == "Failed to decode CESR: invalid format"@,
{
    TspError::Cesr(String::from_str("Failed to decode CESR: invalid format"))
}

/// Takes the data out of a frame of the expected kind.
fn decode_from_cesr(identifier: u32, data: &[u8]) -> (r: Result<Vec<u8>, TspError>)
    ensures
        match r {
            Ok(bytes) => unframed(identifier, data@) == Some(bytes@),
            Err(e) => unframed(identifier, data@) is None && e is Cesr && e.detail()
                == "Failed to decode CESR: invalid format"@,
        },
{
    if data.len() < 12 {
        return Err(not_a_frame());
    }
    let tag = u32_from_le_bytes(slice_subrange(data, 0, 4));
    if tag != identifier {
        return Err(not_a_frame());
    }
    let len = u64_from_le_bytes(slice_subrange(data, 4, 12));
    if len != (data.len() - 12) as u64 {
        return Err(not_a_frame());
    }
    Ok(slice_to_vec(slice_subrange(data, 12, data.len())))
}

/// The detail of the error that reports a value of the wrong length.
pub open spec fn wrong_length(what: Seq<char>, actual: nat, expected: Seq<char>) -> Seq<char> {
    what + crate::text::decimal_text(actual) + " (expected "@ + expected + ")"@
}

/// Encodes a value of the required length; any other length is a crypto
/// error naming both lengths.
fn encode_sized(
    identifier: u32,
    data: &[u8],
    required: usize,
    what: &str,
    expected: &str,
) -> (r: Result<String, TspError>)
    ensures
        match r {
            Ok(text) => data@.len() == required && text@ == encoded(identifier, data@)
                && decoded(identifier, text@) == Some(data@),
            Err(e) => data@.len() != required && e is Crypto && e.detail() == wrong_length(
                what@,
                data@.len(),
                expected@,
            ),
        },
{
    if data.len() != required {
        let detail = String::from_str(what).concat(decimal(data.len() as u64).as_str()).concat(
            " (expected ",
        ).concat(expected).concat(")");
        return Err(TspError::Crypto(detail));
    }
    let cesr_bytes = encode_as_cesr(identifier, data);
    proof {
        lemma_codec_round_trip(identifier, identifier, data@);
    }
    Ok(hex_encode(cesr_bytes.as_slice()))
}

/// Decodes a value of the given kind; text that is not hexadecimal or
/// not a frame of that kind is a framing error.
fn decode_kind(identifier: u32, cesr_hex: &str) -> (r: Result<Vec<u8>, TspError>)
    ensures
        match r {
            Ok(bytes) => decoded(identifier, cesr_hex@) == Some(bytes@),
            Err(e) => refuses(e, identifier, cesr_hex@),
        },
{
    let cesr_bytes = match hex_decode(cesr_hex) {
        Some(bytes) => bytes,
        None => { return Err(TspError::Cesr(String::from_str("Invalid hex encoding"))); },
    };
    decode_from_cesr(identifier, cesr_bytes.as_slice())
}

/// Encodes an Ed25519 signature; anything but 64 bytes is refused.
pub fn encode_signature(signature: &[u8]) -> (r: Result<String, TspError>)
    ensures
        match r {
            Ok(text) => signature@.len() == SIGNATURE_LEN && text@ == encoded(
                ED25519_SIG_ID,
                signature@,
            ) && decoded(ED25519_SIG_ID, text@) == Some(signature@),
            Err(e) => signature@.len() != SIGNATURE_LEN && e is Crypto && e.detail()
                == wrong_length(
                "Invalid Ed25519 signature length: "@,
                signature@.len(),
                "64"@,
            ),
        },
{
    encode_sized(ED25519_SIG_ID, signature, SIGNATURE_LEN, "Invalid Ed25519 signature length: ", "64")
}

/// Decodes an Ed25519 signature.
pub fn decode_signature(cesr_hex: &str) -> (r: Result<Vec<u8>, TspError>)
    ensures
        match r {
            Ok(bytes) => decoded(ED25519_SIG_ID, cesr_hex@) == Some(bytes@),
            Err(e) => refuses(e, ED25519_SIG_ID, cesr_hex@),
        },
{
    decode_kind(ED25519_SIG_ID, cesr_hex)
}

/// Encodes an Ed25519 public key; anything but 32 bytes is refused.
pub fn encode_public_key(key: &[u8]) -> (r: Result<String, TspError>)
    ensures
        match r {
            Ok(text) => key@.len() == PUBLIC_KEY_LEN && text@ == encoded(ED25519_PUB_KEY_ID, key@)
                && decoded(ED25519_PUB_KEY_ID, text@) == Some(key@),
            Err(e) => key@.len() != PUBLIC_KEY_LEN && e is Crypto && e.detail() == wrong_length(
                "Invalid Ed25519 public key length: "@,
                key@.len(),
                "32"@,
            ),
        },
{
    encode_sized(ED25519_PUB_KEY_ID, key, PUBLIC_KEY_LEN, "Invalid Ed25519 public key length: ", "32")
}

/// Decodes an Ed25519 public key.
pub fn decode_public_key(cesr_hex: &str) -> (r: Result<Vec<u8>, TspError>)
    ensures
        match r {
            Ok(bytes) => decoded(ED25519_PUB_KEY_ID, cesr_hex@) == Some(bytes@),
            Err(e) => refuses(e, ED25519_PUB_KEY_ID, cesr_hex@),
        },
{
    decode_kind(ED25519_PUB_KEY_ID, cesr_hex)
}

/// Encodes a BLAKE2b-256 digest; anything but 32 bytes is refused.
pub fn encode_digest(digest: &[u8]) -> (r: Result<String, TspError>)
    ensures
        match r {
            Ok(text) => digest@.len() == DIGEST_LEN && text@ == encoded(BLAKE2B_256_ID, digest@)
                && decoded(BLAKE2B_256_ID, text@) == Some(digest@),
            Err(e) => digest@.len() != DIGEST_LEN && e is Crypto && e.detail() == wrong_length(
                "Invalid Blake2b-256 digest length: "@,
                digest@.len(),
                "32"@,
            ),
        },
{
    encode_sized(BLAKE2B_256_ID, digest, DIGEST_LEN, "Invalid Blake2b-256 digest length: ", "32")
}

/// Decodes a BLAKE2b-256 digest.
pub fn decode_digest(cesr_hex: &str) -> (r: Result<Vec<u8>, TspError>)
    ensures
        match r {
            Ok(bytes) => decoded(BLAKE2B_256_ID, cesr_hex@) == Some(bytes@),
            Err(e) => refuses(e, BLAKE2B_256_ID, cesr_hex@),
        },
{
    decode_kind(BLAKE2B_256_ID, cesr_hex)
}

/// Encodes an AEAD nonce; anything but 12 bytes is refused.
pub fn encode_nonce(nonce: &[u8]) -> (r: Result<String, TspError>)
    ensures
        match r {
            Ok(text) => nonce@.len() == NONCE_LEN && text@ == encoded(NONCE_ID, nonce@) && decoded(
                NONCE_ID,
                text@,
            ) == Some(nonce@),
            Err(e) => nonce@.len() != NONCE_LEN && e is Crypto && e.detail() == wrong_length(
                "Invalid nonce length: "@,
                nonce@.len(),
                "12"@,
            ),
        },
{
    encode_sized(NONCE_ID, nonce, NONCE_LEN, "Invalid nonce length: ", "12")
}

/// Decodes an AEAD nonce.
pub fn decode_nonce(cesr_hex: &str) -> (r: Result<Vec<u8>, TspError>)
    ensures
        match r {
            Ok(bytes) => decoded(NONCE_ID, cesr_hex@) == Some(bytes@),
            Err(e) => refuses(e, NONCE_ID, cesr_hex@),
        },
{
    decode_kind(NONCE_ID, cesr_hex)
}

} // verus!

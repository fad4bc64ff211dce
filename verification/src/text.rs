//! Text helpers: building strings from ASCII bytes and writing numbers.

use vstd::prelude::*;
use vstd::utf8::{
    decode_utf8, encode_utf8, encode_utf8_decode_utf8, encode_utf8_valid_utf8,
    is_ascii_chars, is_ascii_chars_encode_utf8, valid_utf8,
};

verus! {

/// Decodes bytes as UTF-8 text with `String::from_utf8`: text comes back
/// exactly when the bytes are well-formed UTF-8, and it is then the text
/// that they encode.
#[verifier::external_body]
pub(crate) fn text_from_utf8(bytes: Vec<u8>) -> (r: Option<String>)
    ensures
        r.is_some() == valid_utf8(bytes@),
        r matches Some(text) ==> text@ == decode_utf8(bytes@),
{
    String::from_utf8(bytes).ok()
}

/// The text whose characters are the given ASCII bytes.
pub open spec fn ascii_text(bytes: Seq<u8>) -> Seq<char> {
    Seq::new(bytes.len(), |i: int| bytes[i] as char)
}

/// Every byte is an ASCII code.
pub open spec fn all_ascii(bytes: Seq<u8>) -> bool {
    forall|i: int| 0 <= i < bytes.len() ==> #[trigger] bytes[i] < 128
}

/// ASCII bytes are the UTF-8 encoding of their own text.
pub proof fn lemma_ascii_text(bytes: Seq<u8>)
    requires
        all_ascii(bytes),
    ensures
        encode_utf8(ascii_text(bytes)) == bytes,
        valid_utf8(bytes),
        decode_utf8(bytes) == ascii_text(bytes),
{
    let chars = ascii_text(bytes);
    assert(is_ascii_chars(chars)) by {
        assert forall|i: int| 0 <= i < chars.len() implies '\0' <= #[trigger] chars[i]
            <= '\u{7f}' by {
            assert(bytes[i] < 128);
        }
    }
    is_ascii_chars_encode_utf8(chars);
    assert forall|i: int| 0 <= i < bytes.len() implies encode_utf8(chars)[i] == bytes[i] by {
        assert(chars[i] as u8 == encode_utf8(chars)[i]);
        assert(bytes[i] < 128);
    }
    assert(encode_utf8(chars) =~= bytes);
    encode_utf8_valid_utf8(chars);
    encode_utf8_decode_utf8(chars);
}

/// Builds the text whose characters are the given ASCII bytes.
pub(crate) fn ascii_string(bytes: Vec<u8>) -> (r: String)
    requires
        all_ascii(bytes@),
    ensures
        r@ == ascii_text(bytes@),
{
    proof {
        lemma_ascii_text(bytes@);
    }
    match text_from_utf8(bytes) {
        Some(text) => text,
        None => String::new(),
    }
}

/// The ASCII code of a decimal digit.
pub open spec fn digit_code(d: nat) -> u8 {
    (48 + d) as u8
}

/// The decimal digits of `n`, most significant first, as ASCII codes.
pub open spec fn decimal_digits(n: nat) -> Seq<u8>
    decreases n,
{
    if n < 10 {
        seq![digit_code(n)]
    } else {
        decimal_digits(n / 10).push(digit_code(n % 10))
    }
}

/// The decimal rendering of `n`.
pub open spec fn decimal_text(n: nat) -> Seq<char> {
    ascii_text(decimal_digits(n))
}

/// The ASCII code of a hexadecimal digit, in lower case.
pub open spec fn hex_digit_code(d: nat) -> u8 {
    if d < 10 {
        (48 + d) as u8
    } else {
        (87 + d) as u8
    }
}

/// The hexadecimal digits of `n`, most significant first, as ASCII codes.
pub open spec fn hex_digits(n: nat) -> Seq<u8>
    decreases n,
{
    if n < 16 {
        seq![hex_digit_code(n)]
    } else {
        hex_digits(n / 16).push(hex_digit_code(n % 16))
    }
}

/// The rendering of `n` in lower-case hexadecimal behind `0x`.
pub open spec fn prefixed_hex_text(n: nat) -> Seq<char> {
    ascii_text(seq![48u8, 120u8] + hex_digits(n))
}

fn push_decimal(out: &mut Vec<u8>, n: u64)
    requires
        all_ascii(old(out)@),
    ensures
        final(out)@ == old(out)@ + decimal_digits(n as nat),
        all_ascii(final(out)@),
    decreases n,
{
    if n < 10 {
        out.push(48u8 + n as u8);
        assert(out@ =~= old(out)@ + decimal_digits(n as nat));
    } else {
        push_decimal(out, n / 10);
        out.push(48u8 + (n % 10) as u8);
        assert(out@ =~= old(out)@ + decimal_digits(n as nat));
    }
}

fn push_hex(out: &mut Vec<u8>, n: u64)
    requires
        all_ascii(old(out)@),
    ensures
        final(out)@ == old(out)@ + hex_digits(n as nat),
        all_ascii(final(out)@),
    decreases n,
{
    let d = (n % 16) as u8;
    let code = if d < 10 {
        48u8 + d
    } else {
        87u8 + d
    };
    if n < 16 {
        out.push(code);
        assert(out@ =~= old(out)@ + hex_digits(n as nat));
    } else {
        push_hex(out, n / 16);
        out.push(code);
        assert(out@ =~= old(out)@ + hex_digits(n as nat));
    }
}

/// Writes `n` in decimal.
pub fn decimal(n: u64) -> (r: String)
    ensures
        r@ == decimal_text(n as nat),
{
    let mut out: Vec<u8> = Vec::new();
    push_decimal(&mut out, n);
    assert(out@ =~= decimal_digits(n as nat));
    ascii_string(out)
}

/// Writes `n` in lower-case hexadecimal behind `0x`.
pub fn prefixed_hex(n: u64) -> (r: String)
    ensures
        r@ == prefixed_hex_text(n as nat),
{
    let mut out: Vec<u8> = Vec::new();
    out.push(48u8);
    out.push(120u8);
    assert(out@ =~= seq![48u8, 120u8]);
    push_hex(&mut out, n);
    ascii_string(out)
}

} // verus!

use base64::Engine;
use crate::cli::base64::Base64Format;
use crate::error::TextError;
use vstd::prelude::*;
use vstd::utf8::encode_utf8;

verus! {

/// The URL-safe, unpadded base64 text of a byte sequence.
pub uninterp spec fn b64_encoded(b: Seq<u8>) -> Seq<char>;

/// The bytes that URL-safe, unpadded base64 text decodes to, or `None`
/// where the text is not valid in that alphabet.
pub uninterp spec fn b64_decoded(text: Seq<u8>) -> Option<Seq<u8>>;

/// The length of the unpadded base64 text of `n` bytes: four characters
/// per three bytes, and two or three for a last group of one or two.
pub open spec fn unpadded_len(n: nat) -> nat {
    n / 3 * 4 + if n % 3 == 0 {
        0
    } else {
        n % 3 + 1
    }
}

/// Whether the base64 text of `n` bytes has a length that fits in `usize`.
pub open spec fn encodable_len(n: nat) -> bool {
    n / 3 * 4 + 4 <= usize::MAX
}

/// Relies on `base64::Engine::encode` with the `URL_SAFE_NO_PAD` engine:
/// the text depends on the bytes alone, its length is what
/// `base64::encoded_len` gives without padding, and decoding it with the same
/// engine gives the bytes back. It panics only where the text length
/// overflows `usize`.
#[verifier::external_body]
pub(crate) fn encode_url_safe(b: &[u8]) -> (r: String)
    requires
        encodable_len(b@.len()),
    ensures
        r@ == b64_encoded(b@),
        r@.len() == unpadded_len(b@.len()),
        b64_decoded(encode_utf8(r@)) == Some(b@),
{
    base64::engine::general_purpose::URL_SAFE_NO_PAD.encode(b)
}

/// Relies on `base64::Engine::decode` with the `URL_SAFE_NO_PAD` engine:
/// an error exactly where the text is not valid unpadded URL-safe base64.
#[verifier::external_body]
pub(crate) fn decode_url_safe(text: &[u8]) -> (r: Option<Vec<u8>>)
    ensures
        match r {
            Some(b) => b64_decoded(text@) == Some(b@),
            None => b64_decoded(text@) is None,
        },
{
    base64::engine::general_purpose::URL_SAFE_NO_PAD.decode(text).ok()
}


/// The standard, padded base64 text of a byte sequence.
pub uninterp spec fn b64_standard_encoded(b: Seq<u8>) -> Seq<char>;

/// The bytes that standard, padded base64 text decodes to, or `None` where
/// the text is not valid in that alphabet.
pub uninterp spec fn b64_standard_decoded(text: Seq<u8>) -> Option<Seq<u8>>;

/// Relies on `base64::Engine::encode` with the `STANDARD` engine: the text
/// depends on the bytes alone. It panics only where the text length
/// overflows `usize`.
#[verifier::external_body]
fn encode_standard(b: &[u8]) -> (r: String)
    requires
        encodable_len(b@.len()),
    ensures
        r@ == b64_standard_encoded(b@),
        b64_standard_decoded(encode_utf8(r@)) == Some(b@),
{
    base64::engine::general_purpose::STANDARD.encode(b)
}

/// Relies on `base64::Engine::decode` with the `STANDARD` engine: an error
/// exactly where the text is not valid padded standard base64.
#[verifier::external_body]
fn decode_standard(text: &[u8]) -> (r: Option<Vec<u8>>)
    ensures
        match r {
            Some(b) => b64_standard_decoded(text@) == Some(b@),
            None => b64_standard_decoded(text@) is None,
        },
{
    base64::engine::general_purpose::STANDARD.decode(text).ok()
}

/// The base64 text of `b` in the alphabet of `format`.
pub open spec fn base64_text(format: Base64Format, b: Seq<u8>) -> Seq<char> {
    match format {
        Base64Format::Standard => b64_standard_encoded(b),
        Base64Format::UrlSafe => b64_encoded(b),
    }
}

/// The bytes that `text` decodes to in the alphabet of `format`.
pub open spec fn base64_bytes(format: Base64Format, text: Seq<u8>) -> Option<Seq<u8>> {
    match format {
        Base64Format::Standard => b64_standard_decoded(text),
        Base64Format::UrlSafe => b64_decoded(text),
    }
}

/// Encodes the input as base64 text in the chosen alphabet; the text
/// decodes back to the input.
pub fn process_encode(input: &[u8], format: Base64Format) -> (r: String)
    requires
        encodable_len(input@.len()),
    ensures
        r@ == base64_text(format, input@),
        base64_bytes(format, encode_utf8(r@)) == Some(input@),
{
    match format {
        Base64Format::Standard => encode_standard(input),
        Base64Format::UrlSafe => encode_url_safe(input),
    }
}

/// Decodes base64 text in the chosen alphabet; fails with `EncodingError`
/// on text that is not valid in it.
pub fn process_decode(input: &[u8], format: Base64Format) -> (r: Result<Vec<u8>, TextError>)
    ensures
        match base64_bytes(format, input@) {
            Some(b) => r matches Ok(v) && v@ == b,
            None => r == Err::<Vec<u8>, TextError>(TextError::EncodingError),
        },
{
    let decoded = match format {
        Base64Format::Standard => decode_standard(input),
        Base64Format::UrlSafe => decode_url_safe(input),
    };
    match decoded {
        Some(b) => Ok(b),
        None => Err(TextError::EncodingError),
    }
}

} // verus!

//! The base64 globals of the core capability module.
//!
//! `btoa` encodes a string's bytes as standard base64 with padding;
//! `atob` decodes base64 back to bytes and reads them as UTF-8 text.

use vstd::prelude::*;

use base64::prelude::{Engine, BASE64_STANDARD};
use vstd::utf8::{decode_utf8, encode_utf8, valid_utf8};

verus! {

/// The standard, padded base64 encoding of `b`.
pub uninterp spec fn b64_encode_of(b: Seq<u8>) -> Seq<char>;

/// The bytes that `s` decodes from as standard, padded base64, when it is
/// such an encoding.
pub uninterp spec fn b64_decode_of(s: Seq<char>) -> Option<Seq<u8>>;

/// Relies on base64's `BASE64_STANDARD.encode`: standard alphabet with
/// padding, four output characters for every three input bytes begun, and
/// `BASE64_STANDARD.decode` recovers exactly the input. The length bound
/// keeps the output size below the machine limit the encoder panics at.
#[verifier::external_body]
fn b64_encode(bytes: &[u8]) -> (r: String)
    requires
        4 * ((bytes@.len() + 2) / 3) <= usize::MAX,
    ensures
        r@ == b64_encode_of(bytes@),
        r@.len() == 4 * ((bytes@.len() + 2) / 3),
        b64_decode_of(r@) == Some(bytes@),
{
    BASE64_STANDARD.encode(bytes)
}

/// Relies on base64's `BASE64_STANDARD.decode`: it returns the decoded
/// bytes exactly when the input is a standard, padded base64 encoding.
#[verifier::external_body]
fn b64_decode(s: &str) -> (r: Option<Vec<u8>>)
    ensures
        match r {
            Some(v) => b64_decode_of(s@) == Some(v@),
            None => b64_decode_of(s@) is None,
        },
{
    match BASE64_STANDARD.decode(s.as_bytes()) {
        Ok(v) => Some(v),
        Err(_) => None,
    }
}

/// Why `atob` rejected its input.
#[derive(Clone, Copy, Debug, PartialEq, Eq, Structural)]
pub enum AtobError {
    /// The input is not a standard base64 encoding.
    InvalidBase64,
    /// The decoded bytes are not valid UTF-8 text.
    InvalidUtf8,
}

/// Encode the UTF-8 bytes of `value` as standard base64 with padding.
pub fn btoa(value: &str) -> (r: String)
    requires
        4 * ((encode_utf8(value@).len() + 2) / 3) <= usize::MAX,
    ensures
        r@ == b64_encode_of(encode_utf8(value@)),
        b64_decode_of(r@) == Some(encode_utf8(value@)),
{
    b64_encode(value.as_bytes())
}

/// Decode standard base64 to bytes and read them as UTF-8 text. Fails on
/// input that is not base64, and on decoded bytes that are not text —
/// each with its own error.
pub fn atob(value: &str) -> (r: Result<String, AtobError>)
    ensures
        match b64_decode_of(value@) {
            None => r == Err::<String, AtobError>(AtobError::InvalidBase64),
            Some(b) => if valid_utf8(b) {
                match r {
                    Ok(s) => s@ == decode_utf8(b),
                    Err(_) => false,
                }
            } else {
                r == Err::<String, AtobError>(AtobError::InvalidUtf8)
            },
        },
{
    let bytes = match b64_decode(value) {
        Some(b) => b,
        None => {
            return Err(AtobError::InvalidBase64);
        },
    };
    match crate::strutil::utf8_to_string(&bytes) {
        Some(s) => Ok(s),
        None => Err(AtobError::InvalidUtf8),
    }
}

} // verus!

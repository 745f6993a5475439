//! Text that an operator types in: a content digest in hex, a public key in
//! hex or base64. `data_encoding` reads the text.

use crate::error::{Input, StampError};
use data_encoding::{BASE64, HEXLOWER_PERMISSIVE};
use vstd::prelude::*;

verus! {

/// The bytes that `data_encoding::HEXLOWER_PERMISSIVE` decodes `text` to, or
/// nothing where it rejects the text.
pub uninterp spec fn hex_decoding(text: Seq<char>) -> Option<Seq<u8>>;

/// The bytes that `data_encoding::BASE64` decodes `text` to, or nothing where
/// it rejects the text.
pub uninterp spec fn base64_decoding(text: Seq<char>) -> Option<Seq<u8>>;

/// The bytes held by `bytes`, if any.
pub open spec fn bytes_view(bytes: Option<Vec<u8>>) -> Option<Seq<u8>> {
    match bytes {
        Some(b) => Some(b@),
        None => None,
    }
}

/// Calls `decode` of `data_encoding::HEXLOWER_PERMISSIVE` on the bytes of
/// `text`. Trusted: the outcome depends on the text alone; it is
/// `hex_decoding` of it.
#[verifier::external_body]
pub(crate) fn decode_hex(text: &str) -> (r: Option<Vec<u8>>)
    ensures
        bytes_view(r) == hex_decoding(text@),
{
    HEXLOWER_PERMISSIVE.decode(text.as_bytes()).ok()
}

/// Calls `decode` of `data_encoding::BASE64` on the bytes of `text`. Trusted:
/// the outcome depends on the text alone; it is `base64_decoding` of it.
#[verifier::external_body]
pub(crate) fn decode_base64(text: &str) -> (r: Option<Vec<u8>>)
    ensures
        bytes_view(r) == base64_decoding(text@),
{
    BASE64.decode(text.as_bytes()).ok()
}

/// The key that a text stands for, given what it decodes to as hex and as
/// base64: the hex reading where there is one, else the base64 reading.
pub open spec fn key_of(hex: Option<Seq<u8>>, base64: Option<Seq<u8>>) -> Option<Seq<u8>> {
    if hex is Some {
        hex
    } else {
        base64
    }
}

/// Picks the key from the two readings of a text. Fails with
/// `CallerInput(PublicKey)` exactly where there is neither.
pub fn choose_key(hex: Option<Vec<u8>>, base64: Option<Vec<u8>>) -> (r: Result<Vec<u8>, StampError>)
    ensures
        match r {
            Ok(key) => key_of(bytes_view(hex), bytes_view(base64)) == Some(key@),
            Err(e) => key_of(bytes_view(hex), bytes_view(base64)) is None && e
                == StampError::CallerInput(Input::PublicKey),
        },
{
    match hex {
        Some(key) => Ok(key),
        None => match base64 {
            Some(key) => Ok(key),
            None => Err(StampError::CallerInput(Input::PublicKey)),
        },
    }
}

/// Reads a public key given as hex or as base64.
pub fn parse_public_key(text: &str) -> (r: Result<Vec<u8>, StampError>)
    ensures
        match r {
            Ok(key) => key_of(hex_decoding(text@), base64_decoding(text@)) == Some(key@),
            Err(e) => key_of(hex_decoding(text@), base64_decoding(text@)) is None && e
                == StampError::CallerInput(Input::PublicKey),
        },
{
    choose_key(decode_hex(text), decode_base64(text))
}

} // verus!

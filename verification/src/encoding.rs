//! Trusted boundary to the base64 crate and to std's UTF-8 decoding.  Each
//! wrapper's contract states only what the outside function's source and
//! documentation promise; everything built on top of them is verified.

use vstd::prelude::*;
use vstd::utf8::{decode_utf8, valid_utf8};
use base64::Engine;

verus! {

/// The bytes that base64 decoding with the standard alphabet yields for the
/// text `s`, or `None` when `s` is not valid base64.
pub uninterp spec fn base64_decoded(s: Seq<char>) -> Option<Seq<u8>>;

/// The base64 text, in the standard alphabet with padding, encoding the
/// bytes `b`.
pub uninterp spec fn base64_encoding(b: Seq<u8>) -> Seq<char>;

/// Relies on base64's `Engine::decode` on the `STANDARD` engine: it returns
/// the decoded bytes for valid base64 input and an error otherwise, as a
/// function of the input text alone.
#[verifier::external_body]
pub fn base64_decode(s: &str) -> (r: Option<Vec<u8>>)
    ensures
        match r {
            Some(b) => base64_decoded(s@) == Some(b@),
            None => base64_decoded(s@) is None,
        },
{
    match base64::engine::general_purpose::STANDARD.decode(s) {
        Ok(b) => Some(b),
        Err(_) => None,
    }
}

/// Relies on base64's `Engine::encode` on the `STANDARD` engine: the result
/// is a function of the input bytes alone.  The length bound keeps the
/// encoded size within `usize`, the one case in which `encode` would abort.
#[verifier::external_body]
pub fn base64_encode(b: &Vec<u8>) -> (r: String)
    requires
        b@.len() <= 0x4000_0000_0000_0000,
    ensures
        r@ == base64_encoding(b@),
{
    base64::engine::general_purpose::STANDARD.encode(b.as_slice())
}

/// Relies on std's `String::from_utf8`: it succeeds exactly on valid UTF-8
/// input and yields the characters that the bytes encode.
#[verifier::external_body]
pub fn utf8_decode(b: Vec<u8>) -> (r: Option<String>)
    ensures
        match r {
            Some(s) => valid_utf8(b@) && s@ == decode_utf8(b@),
            None => !valid_utf8(b@),
        },
{
    match String::from_utf8(b) {
        Ok(s) => Some(s),
        Err(_) => None,
    }
}

} // verus!

//! Decoding guest-written bytes as text for the logging host functions.

use vstd::prelude::*;
use vstd::utf8::{valid_utf8, decode_utf8};
use crate::errors::HostError;

verus! {

/// Relies on core::str::from_utf8: it succeeds exactly on valid UTF-8 input,
/// and the resulting string is the characters those bytes encode.
#[verifier::external_body]
fn try_from_utf8(bytes: &[u8]) -> (r: Option<&str>)
    ensures
        r is Some <==> valid_utf8(bytes@),
        r matches Some(s) ==> s@ == decode_utf8(bytes@),
{
    core::str::from_utf8(bytes).ok()
}

/// Decode bytes copied out of guest memory as text. Succeeds exactly on
/// valid UTF-8, returning the decoded characters; anything else is a
/// `TextDecode` error, scoped to the logging call that read the bytes.
pub fn decode_text(bytes: &[u8]) -> (r: Result<String, HostError>)
    ensures
        r is Ok <==> valid_utf8(bytes@),
        r matches Ok(t) ==> t@ == decode_utf8(bytes@),
        r matches Err(e) ==> e == HostError::TextDecode,
{
    match try_from_utf8(bytes) {
        Some(s) => Ok(s.to_owned()),
        None => Err(HostError::TextDecode),
    }
}

} // verus!

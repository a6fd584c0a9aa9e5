//! Text that crosses the boundary as raw bytes.

use vstd::prelude::*;
use vstd::utf8::{decode_utf8, valid_utf8};

verus! {

/// Reads bytes as text.
///
/// Calls `std::str::from_utf8`. Trusted: the bytes are accepted exactly when
/// they are a valid UTF-8 encoding, and the text then holds the characters
/// that they encode.
#[verifier::external_body]
pub(crate) fn text_of(bytes: &[u8]) -> (text: Option<String>)
    ensures
        text is Some <==> valid_utf8(bytes@),
        text matches Some(s) ==> s@ == decode_utf8(bytes@),
{
    match std::str::from_utf8(bytes) {
        Ok(s) => Some(s.to_string()),
        Err(_) => None,
    }
}

} // verus!

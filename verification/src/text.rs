//! Bytes as text.

use crate::error::ParseError;
use crate::trusted::utf8_error;
use vstd::prelude::*;
use vstd::utf8::{decode_utf8, valid_utf8};

verus! {

/// Whether `result` is what bytes come to as text: their characters where they
/// are UTF-8, and the decoder's error where they are not.
pub open spec fn is_text_of(result: Result<&str, ParseError>, bytes: Seq<u8>) -> bool {
    match result {
        Ok(text) => valid_utf8(bytes) && text@ == decode_utf8(bytes),
        Err(error) => !valid_utf8(bytes) && error == ParseError::InvalidUtf8(utf8_error(bytes)),
    }
}

/// The text that bytes hold.
#[inline]
pub(crate) fn get_str(buf: &[u8]) -> (result: Result<&str, ParseError>)
    ensures
        is_text_of(result, buf@),
{
    match std::str::from_utf8(buf) {
        Ok(text) => Ok(text),
        Err(error) => Err(ParseError::InvalidUtf8(error)),
    }
}

} // verus!

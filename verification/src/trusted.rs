//! What the library takes on trust: the contents of [`Bytes`], the byte search
//! of `memchr`, and the UTF-8 decoder of the standard library.

use bytes::Bytes;
use std::str::Utf8Error;
use vstd::prelude::*;
use vstd::utf8::{decode_utf8, valid_utf8};

verus! {

/// `bytes::Bytes`: a cheaply cloneable handle on an immutable run of bytes.
#[verifier::external_type_specification]
#[verifier::external_body]
pub struct ExBytes(bytes::Bytes);

/// The bytes that a [`Bytes`] handle gives access to.
pub uninterp spec fn contents(bytes: Bytes) -> Seq<u8>;

/// `Bytes::clone` gives another handle on the same bytes.
pub assume_specification[ <Bytes as Clone>::clone ](bytes: &Bytes) -> (copy: Bytes)
    ensures
        contents(copy) == contents(*bytes),
;

/// `Bytes::len` gives the number of bytes.
pub assume_specification[ Bytes::len ](bytes: &Bytes) -> (len: usize)
    ensures
        len == contents(*bytes).len(),
;

/// `Bytes::deref` gives the bytes as a slice.
pub assume_specification[ <Bytes as std::ops::Deref>::deref ](bytes: &Bytes) -> (slice: &[u8])
    ensures
        slice@ == contents(*bytes),
;

/// `Bytes::slice` on `start..end` gives a handle on just these bytes. It panics
/// unless the range lies within the bytes.
#[verifier::external_body]
pub(crate) fn slice_of(bytes: &Bytes, start: usize, end: usize) -> (part: Bytes)
    requires
        start <= end <= contents(*bytes).len(),
    ensures
        contents(part) == contents(*bytes).subrange(start as int, end as int),
{
    bytes.slice(start..end)
}

/// `memchr::memchr` gives the index of the first occurrence of `needle` in
/// `haystack`, or `None` where there is no occurrence.
pub assume_specification[ memchr::memchr ](needle: u8, haystack: &[u8]) -> (found: Option<usize>)
    ensures
        match found {
            Some(at) => {
                &&& at < haystack@.len()
                &&& haystack@[at as int] == needle
                &&& forall|i: int| 0 <= i < at ==> haystack@[i] != needle
            },
            None => forall|i: int| 0 <= i < haystack@.len() ==> haystack@[i] != needle,
        },
;

/// `std::str::Utf8Error`: where and how a run of bytes fails to be UTF-8.
#[verifier::external_type_specification]
#[verifier::external_body]
pub struct ExUtf8Error(std::str::Utf8Error);

/// The error that `std::str::from_utf8` gives on bytes that are not UTF-8.
pub uninterp spec fn utf8_error(bytes: Seq<u8>) -> Utf8Error;

/// `std::str::from_utf8` succeeds exactly on valid UTF-8, with the characters
/// that the bytes encode. Its error depends on the bytes alone.
pub assume_specification<'a>[ std::str::from_utf8 ](bytes: &'a [u8]) -> (text: Result<
    &'a str,
    Utf8Error,
>)
    ensures
        match text {
            Ok(text) => valid_utf8(bytes@) && text@ == decode_utf8(bytes@),
            Err(error) => !valid_utf8(bytes@) && error == utf8_error(bytes@),
        },
;

} // verus!

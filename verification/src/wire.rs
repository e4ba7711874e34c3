//! The wire format of the parts that messages are made of: how each part is
//! written in front of other bytes, and how it is read from the start of an
//! input.

use crate::error::{Failure, ParseError};
use vstd::prelude::*;

verus! {

/// What reading a part from the start of an input comes to.
pub enum Decoded<T> {
    /// The part, and the bytes that follow it.
    Value(T, Seq<u8>),
    /// The reason why there is no part, and the bytes that are left unread.
    Failed(Failure, Seq<u8>),
}

impl<T> Decoded<T> {
    /// Reads the next part with `next`, which is given this part and the bytes
    /// that follow it. A failure stays what it is, with the same bytes unread.
    pub open spec fn chain<U>(self, next: spec_fn(T, Seq<u8>) -> Decoded<U>) -> Decoded<U> {
        match self {
            Decoded::Value(value, rest) => next(value, rest),
            Decoded::Failed(failure, rest) => Decoded::Failed(failure, rest),
        }
    }

    /// The same outcome with `more` bytes behind the input.
    pub open spec fn followed_by(self, more: Seq<u8>) -> Decoded<T> {
        match self {
            Decoded::Value(value, rest) => Decoded::Value(value, rest + more),
            Decoded::Failed(failure, rest) => Decoded::Failed(failure, rest + more),
        }
    }

    /// Whether there is no part, for the reason `failure`.
    pub open spec fn fails_with(self, failure: Failure) -> bool {
        self matches Decoded::Failed(reason, _) && reason == failure
    }

    /// Whether the input is refused with `error`.
    pub open spec fn is_rejected_with(self, error: ParseError) -> bool {
        self.fails_with(Failure::Rejected(error))
    }

    /// Whether the input ends within the part.
    pub open spec fn is_cut_short(self) -> bool {
        self.fails_with(end_of_input())
    }
}

/// The failure of an input that ends within a part.
pub open spec fn end_of_input() -> Failure {
    Failure::Rejected(ParseError::UnexpectedEof)
}

/// The failure of an input that is refused with `error` while `rest` is unread.
pub open spec fn rejected<T>(error: ParseError, rest: Seq<u8>) -> Decoded<T> {
    Decoded::Failed(Failure::Rejected(error), rest)
}

/// 256 to the power of `width`: how many values `width` bytes can hold.
pub open spec fn capacity(width: nat) -> nat
    decreases width,
{
    if width == 0 {
        1
    } else {
        256 * capacity((width - 1) as nat)
    }
}

/// The number that bytes stand for, the most significant byte first.
pub open spec fn be_value(bytes: Seq<u8>) -> nat
    decreases bytes.len(),
{
    if bytes.len() == 0 {
        0
    } else {
        256 * be_value(bytes.drop_last()) + bytes.last() as nat
    }
}

/// The lowest `width` bytes of a number, the most significant byte first.
pub open spec fn be_bytes(n: nat, width: nat) -> Seq<u8>
    decreases width,
{
    if width == 0 {
        Seq::empty()
    } else {
        be_bytes(n / 256, (width - 1) as nat).push((n % 256) as u8)
    }
}

/// The signed number that an unsigned one of `width` bytes stands for in two's
/// complement.
pub open spec fn to_signed(n: nat, width: nat) -> int {
    if 2 * n < capacity(width) {
        n as int
    } else {
        n - capacity(width)
    }
}

/// The unsigned number of `width` bytes that stands for a signed one in two's
/// complement.
pub open spec fn to_unsigned(n: int, width: nat) -> nat {
    if n >= 0 {
        n as nat
    } else {
        (n + capacity(width)) as nat
    }
}

/// Reads one byte.
pub open spec fn decode_u8(s: Seq<u8>) -> Decoded<u8> {
    if s.len() < 1 {
        Decoded::Failed(end_of_input(), s)
    } else {
        Decoded::Value(s[0], s.skip(1))
    }
}

/// Reads a signed integer of one byte.
pub open spec fn decode_i8(s: Seq<u8>) -> Decoded<i8> {
    if s.len() < 1 {
        Decoded::Failed(end_of_input(), s)
    } else {
        Decoded::Value(to_signed(be_value(s.take(1)), 1) as i8, s.skip(1))
    }
}

/// Reads a signed integer of two bytes.
pub open spec fn decode_i16(s: Seq<u8>) -> Decoded<i16> {
    if s.len() < 2 {
        Decoded::Failed(end_of_input(), s)
    } else {
        Decoded::Value(to_signed(be_value(s.take(2)), 2) as i16, s.skip(2))
    }
}

/// Reads a signed integer of four bytes.
pub open spec fn decode_i32(s: Seq<u8>) -> Decoded<i32> {
    if s.len() < 4 {
        Decoded::Failed(end_of_input(), s)
    } else {
        Decoded::Value(to_signed(be_value(s.take(4)), 4) as i32, s.skip(4))
    }
}

/// Reads an unsigned integer of four bytes.
pub open spec fn decode_u32(s: Seq<u8>) -> Decoded<u32> {
    if s.len() < 4 {
        Decoded::Failed(end_of_input(), s)
    } else {
        Decoded::Value(be_value(s.take(4)) as u32, s.skip(4))
    }
}

/// Reads a signed integer of eight bytes.
pub open spec fn decode_i64(s: Seq<u8>) -> Decoded<i64> {
    if s.len() < 8 {
        Decoded::Failed(end_of_input(), s)
    } else {
        Decoded::Value(to_signed(be_value(s.take(8)), 8) as i64, s.skip(8))
    }
}

/// Reads an unsigned integer of eight bytes.
pub open spec fn decode_u64(s: Seq<u8>) -> Decoded<u64> {
    if s.len() < 8 {
        Decoded::Failed(end_of_input(), s)
    } else {
        Decoded::Value(be_value(s.take(8)) as u64, s.skip(8))
    }
}

/// Whether the first zero byte stands at `at`.
pub open spec fn first_nul_at(s: Seq<u8>, at: int) -> bool {
    &&& 0 <= at < s.len()
    &&& s[at] == 0
    &&& forall|i: int| 0 <= i < at ==> s[i] != 0
}

/// Reads the bytes up to the first zero byte, and passes over that one too.
pub open spec fn decode_cstr(s: Seq<u8>) -> Decoded<Seq<u8>> {
    if exists|at: int| first_nul_at(s, at) {
        let at = choose|at: int| first_nul_at(s, at);
        Decoded::Value(s.take(at), s.skip(at + 1))
    } else {
        Decoded::Failed(end_of_input(), s)
    }
}

/// Reads `len` bytes.
pub open spec fn decode_bytes(len: int, s: Seq<u8>) -> Decoded<Seq<u8>> {
    if 0 <= len <= s.len() {
        Decoded::Value(s.take(len), s.skip(len))
    } else {
        Decoded::Failed(end_of_input(), s)
    }
}

/// The same list with `prefix` in front of its entries.
pub open spec fn prepend<T>(prefix: Seq<T>, list: Decoded<Seq<T>>) -> Decoded<Seq<T>> {
    match list {
        Decoded::Value(entries, rest) => Decoded::Value(prefix + entries, rest),
        Decoded::Failed(failure, rest) => Decoded::Failed(failure, rest),
    }
}

/// Reads `count` parts, each with `item`.
pub open spec fn decode_list<T>(
    item: spec_fn(Seq<u8>) -> Decoded<T>,
    count: int,
    s: Seq<u8>,
) -> Decoded<Seq<T>>
    decreases count,
{
    if count < 0 {
        Decoded::Failed(Failure::NegativeCount, s)
    } else if count == 0 {
        Decoded::Value(Seq::empty(), s)
    } else {
        item(s).chain(
            |first: T, s: Seq<u8>| prepend(seq![first], decode_list(item, count - 1, s)),
        )
    }
}

/// One byte in front of `rest`.
pub open spec fn put_u8(n: u8, rest: Seq<u8>) -> Seq<u8> {
    seq![n] + rest
}

/// A signed integer of one byte in front of `rest`.
pub open spec fn put_i8(n: i8, rest: Seq<u8>) -> Seq<u8> {
    be_bytes(to_unsigned(n as int, 1), 1) + rest
}

/// A signed integer of two bytes in front of `rest`.
pub open spec fn put_i16(n: i16, rest: Seq<u8>) -> Seq<u8> {
    be_bytes(to_unsigned(n as int, 2), 2) + rest
}

/// A signed integer of four bytes in front of `rest`.
pub open spec fn put_i32(n: i32, rest: Seq<u8>) -> Seq<u8> {
    be_bytes(to_unsigned(n as int, 4), 4) + rest
}

/// An unsigned integer of four bytes in front of `rest`.
pub open spec fn put_u32(n: u32, rest: Seq<u8>) -> Seq<u8> {
    be_bytes(n as nat, 4) + rest
}

/// A signed integer of eight bytes in front of `rest`.
pub open spec fn put_i64(n: i64, rest: Seq<u8>) -> Seq<u8> {
    be_bytes(to_unsigned(n as int, 8), 8) + rest
}

/// An unsigned integer of eight bytes in front of `rest`.
pub open spec fn put_u64(n: u64, rest: Seq<u8>) -> Seq<u8> {
    be_bytes(n as nat, 8) + rest
}

/// Bytes and a zero byte in front of `rest`.
pub open spec fn put_cstr(text: Seq<u8>, rest: Seq<u8>) -> Seq<u8> {
    text + (seq![0u8] + rest)
}

/// Whether bytes can stand before a zero byte that ends them.
pub open spec fn is_cstr(text: Seq<u8>) -> bool {
    forall|i: int| 0 <= i < text.len() ==> text[i] != 0
}

/// The parts of a list in front of `rest`, each put there with `item`.
pub open spec fn put_list<T>(
    item: spec_fn(T, Seq<u8>) -> Seq<u8>,
    list: Seq<T>,
    rest: Seq<u8>,
) -> Seq<u8>
    decreases list.len(),
{
    if list.len() == 0 {
        rest
    } else {
        item(list[0], put_list(item, list.drop_first(), rest))
    }
}

} // verus!

//! A cursor over the bytes of one message.

use crate::error::{Failure, ParseError};
use crate::model::decode_xid;
use crate::trusted::{contents, slice_of};
use crate::wire::{
    be_value, decode_bytes, decode_cstr, decode_i16, decode_i32, decode_i64, decode_i8, decode_u32,
    decode_u64, decode_u8, end_of_input, first_nul_at, Decoded,
};
use crate::wire_lemmas::{
    lemma_be_value_of_1, lemma_be_value_of_2, lemma_be_value_of_4, lemma_be_value_of_8,
    lemma_capacity,
};
use bytes::Bytes;
use std::ops::Deref;
use vstd::prelude::*;

verus! {

/// What a reader returned, as an outcome over views: the value that it gave or its
/// failure, and the bytes that it left unread.
pub open spec fn outcome<T: View>(result: Result<T, Failure>, rest: Seq<u8>) -> Decoded<T::V> {
    match result {
        Ok(value) => Decoded::Value(value@, rest),
        Err(failure) => Decoded::Failed(failure, rest),
    }
}

/// The same of a reader that gives [`Bytes`].
pub open spec fn bytes_outcome(result: Result<Bytes, Failure>, rest: Seq<u8>) -> Decoded<Seq<u8>> {
    match result {
        Ok(bytes) => Decoded::Value(contents(bytes), rest),
        Err(failure) => Decoded::Failed(failure, rest),
    }
}

pub struct Buffer {
    bytes: Bytes,
    idx: usize,
}

impl View for Buffer {
    type V = Seq<u8>;

    /// The bytes that are still to be read.
    closed spec fn view(&self) -> Seq<u8> {
        contents(self.bytes).skip(self.idx as int)
    }
}

impl Buffer {
    /// All the bytes of the message, those that have been read too.
    pub closed spec fn source(self) -> Seq<u8> {
        contents(self.bytes)
    }

    /// How many bytes have been read.
    pub closed spec fn position(self) -> int {
        self.idx as int
    }

    /// Whether reads can lead here from `before`: the cursor is over the same
    /// bytes and has not gone back.
    pub open spec fn continues(self, before: Buffer) -> bool {
        &&& self.source() == before.source()
        &&& before.position() <= self.position()
    }

    /// What is still to be read is what stands behind the cursor.
    pub proof fn lemma_rest(self)
        requires
            self.wf(),
        ensures
            0 <= self.position() <= self.source().len(),
            self@ == self.source().skip(self.position()),
            self@.len() == self.source().len() - self.position(),
    {
    }

    /// The cursor stands within the bytes or at their end.
    pub closed spec fn wf(self) -> bool {
        self.idx <= contents(self.bytes).len()
    }

    pub fn new(bytes: &Bytes) -> (buf: Buffer)
        ensures
            buf.wf(),
            buf@ == contents(*bytes),
            buf.source() == contents(*bytes),
            buf.position() == 0,
    {
        Buffer { bytes: bytes.clone(), idx: 0 }
    }

    #[inline]
    fn slice(&self) -> (slice: &[u8])
        requires
            self.wf(),
        ensures
            slice@ == self@,
            self.idx + slice@.len() <= usize::MAX,
    {
        let all = self.bytes.deref();
        &all[self.idx..all.len()]
    }

    #[inline]
    pub fn read_cstr(&mut self) -> (result: Result<Bytes, Failure>)
        requires
            old(self).wf(),
        ensures
            final(self).wf(),
            final(self).continues(*old(self)),
            bytes_outcome(result, final(self)@) == decode_cstr(old(self)@),
            result is Err ==> *final(self) == *old(self),
    {
        match memchr::memchr(0, self.slice()) {
            Some(pos) => {
                let start = self.idx;
                let end = start + pos;
                let cstr = slice_of(&self.bytes, start, end);
                self.idx = end + 1;
                proof {
                    let s = old(self)@;
                    assert(first_nul_at(s, pos as int));
                    let at = choose|at: int| first_nul_at(s, at);
                    assert(at == pos) by {
                        assert(first_nul_at(s, at));
                    }
                    assert(contents(cstr) == s.take(at));
                    assert(self@ == s.skip(at + 1));
                }
                Ok(cstr)
            },
            None => {
                proof {
                    assert(forall|at: int| !first_nul_at(self@, at));
                }
                Err(Failure::Rejected(ParseError::UnexpectedEof))
            },
        }
    }

    #[inline]
    pub fn read_all(&mut self) -> (rest: Bytes)
        requires
            old(self).wf(),
        ensures
            final(self).wf(),
            final(self).continues(*old(self)),
            contents(rest) == old(self)@,
            final(self)@ == Seq::<u8>::empty(),
    {
        let len = self.bytes.len();
        let rest = slice_of(&self.bytes, self.idx, len);
        self.idx = len;
        rest
    }

    #[inline]
    fn ensure(&self, need: usize) -> (result: Result<(), Failure>)
        requires
            self.wf(),
        ensures
            match result {
                Ok(_) => need <= self@.len() && self.idx + need <= usize::MAX,
                Err(failure) => need > self@.len() && failure == end_of_input(),
            },
    {
        if need > self.bytes.len() - self.idx {
            Err(Failure::Rejected(ParseError::UnexpectedEof))
        } else {
            Ok(())
        }
    }

    /// The byte at `offset` from the cursor.
    #[inline]
    fn byte(&self, offset: usize) -> (byte: u8)
        requires
            self.wf(),
            offset < self@.len(),
        ensures
            byte == self@[offset as int],
    {
        let rest = self.slice();
        rest[offset]
    }

    /// Moves the cursor.
    #[inline]
    fn advance(&mut self, count: usize)
        requires
            old(self).wf(),
            count <= old(self)@.len(),
            old(self).idx + count <= usize::MAX,
        ensures
            final(self).wf(),
            final(self).continues(*old(self)),
            final(self)@ == old(self)@.skip(count as int),
    {
        self.idx = self.idx + count;
        proof {
            assert(self@ == old(self)@.skip(count as int));
        }
    }

    /// The number that the next two bytes stand for.
    #[inline]
    fn peek_u16(&self) -> (n: u16)
        requires
            self.wf(),
            self@.len() >= 2,
        ensures
            n == be_value(self@.take(2)),
    {
        proof {
            lemma_be_value_of_2(self@);
        }
        self.byte(0) as u16 * 0x100 + self.byte(1) as u16
    }

    /// The number that the next four bytes stand for.
    #[inline]
    fn peek_u32(&self) -> (n: u32)
        requires
            self.wf(),
            self@.len() >= 4,
        ensures
            n == be_value(self@.take(4)),
    {
        proof {
            lemma_be_value_of_4(self@);
        }
        self.byte(0) as u32 * 0x100_0000 + self.byte(1) as u32 * 0x1_0000 + self.byte(2) as u32
            * 0x100 + self.byte(3) as u32
    }

    /// The number that the next eight bytes stand for.
    #[inline]
    fn peek_u64(&self) -> (n: u64)
        requires
            self.wf(),
            self@.len() >= 8,
        ensures
            n == be_value(self@.take(8)),
    {
        proof {
            lemma_be_value_of_8(self@);
        }
        self.byte(0) as u64 * 0x100_0000_0000_0000 + self.byte(1) as u64 * 0x1_0000_0000_0000
            + self.byte(2) as u64 * 0x100_0000_0000 + self.byte(3) as u64 * 0x1_0000_0000
            + self.byte(4) as u64 * 0x100_0000 + self.byte(5) as u64 * 0x1_0000 + self.byte(6)
            as u64 * 0x100 + self.byte(7) as u64
    }

    #[inline]
    pub fn read_u8(&mut self) -> (result: Result<u8, Failure>)
        requires
            old(self).wf(),
        ensures
            final(self).wf(),
            final(self).continues(*old(self)),
            outcome(result, final(self)@) == decode_u8(old(self)@),
            result is Err ==> *final(self) == *old(self),
    {
        self.ensure(1)?;
        let v = self.byte(0);
        self.advance(1);
        Ok(v)
    }

    #[inline]
    pub fn read_i8(&mut self) -> (result: Result<i8, Failure>)
        requires
            old(self).wf(),
        ensures
            final(self).wf(),
            final(self).continues(*old(self)),
            outcome(result, final(self)@) == decode_i8(old(self)@),
            result is Err ==> *final(self) == *old(self),
    {
        let v = self.read_u8()?;
        proof {
            lemma_capacity();
            lemma_be_value_of_1(old(self)@);
            assert((v as i8) as int == (if v < 0x80 { v as int } else { v - 0x100 }))
                by (bit_vector);
        }
        Ok(v as i8)
    }

    #[inline]
    pub fn read_i16_be(&mut self) -> (result: Result<i16, Failure>)
        requires
            old(self).wf(),
        ensures
            final(self).wf(),
            final(self).continues(*old(self)),
            outcome(result, final(self)@) == decode_i16(old(self)@),
            result is Err ==> *final(self) == *old(self),
    {
        self.ensure(2)?;
        let v = self.peek_u16();
        self.advance(2);
        proof {
            lemma_capacity();
            assert((v as i16) as int == (if v < 0x8000 { v as int } else { v - 0x1_0000 }))
                by (bit_vector);
        }
        Ok(v as i16)
    }

    #[inline]
    pub fn read_i32_be(&mut self) -> (result: Result<i32, Failure>)
        requires
            old(self).wf(),
        ensures
            final(self).wf(),
            final(self).continues(*old(self)),
            outcome(result, final(self)@) == decode_i32(old(self)@),
            result is Err ==> *final(self) == *old(self),
    {
        self.ensure(4)?;
        let v = self.peek_u32();
        self.advance(4);
        proof {
            lemma_capacity();
            assert((v as i32) as int == (if v < 0x8000_0000 {
                v as int
            } else {
                v - 0x1_0000_0000
            })) by (bit_vector);
        }
        Ok(v as i32)
    }

    #[inline]
    pub fn read_u32_be(&mut self) -> (result: Result<u32, Failure>)
        requires
            old(self).wf(),
        ensures
            final(self).wf(),
            final(self).continues(*old(self)),
            outcome(result, final(self)@) == decode_u32(old(self)@),
            result is Err ==> *final(self) == *old(self),
    {
        self.ensure(4)?;
        let v = self.peek_u32();
        self.advance(4);
        Ok(v)
    }

    #[inline]
    pub fn read_i64_be(&mut self) -> (result: Result<i64, Failure>)
        requires
            old(self).wf(),
        ensures
            final(self).wf(),
            final(self).continues(*old(self)),
            outcome(result, final(self)@) == decode_i64(old(self)@),
            result is Err ==> *final(self) == *old(self),
    {
        self.ensure(8)?;
        let v = self.peek_u64();
        self.advance(8);
        proof {
            lemma_capacity();
            assert((v as i64) as int == (if v < 0x8000_0000_0000_0000 {
                v as int
            } else {
                v - 0x1_0000_0000_0000_0000
            })) by (bit_vector);
        }
        Ok(v as i64)
    }

    #[inline]
    pub fn read_u64_be(&mut self) -> (result: Result<u64, Failure>)
        requires
            old(self).wf(),
        ensures
            final(self).wf(),
            final(self).continues(*old(self)),
            outcome(result, final(self)@) == decode_u64(old(self)@),
            result is Err ==> *final(self) == *old(self),
    {
        self.ensure(8)?;
        let v = self.peek_u64();
        self.advance(8);
        Ok(v)
    }

    #[inline]
    pub fn read_len(&mut self, len: usize) -> (result: Result<Bytes, Failure>)
        requires
            old(self).wf(),
        ensures
            final(self).wf(),
            final(self).continues(*old(self)),
            bytes_outcome(result, final(self)@) == decode_bytes(len as int, old(self)@),
            result is Err ==> *final(self) == *old(self),
    {
        let remaining = self.bytes.len() - self.idx;
        if len > remaining {
            return Err(Failure::Rejected(ParseError::UnexpectedEof));
        }
        let start = self.idx;
        let end = start + len;
        let slice = slice_of(&self.bytes, start, end);
        self.idx = end;
        proof {
            assert(contents(slice) == old(self)@.take(len as int));
            assert(self@ == old(self)@.skip(len as int));
        }
        Ok(slice)
    }
}

impl Buffer {
    /// Reads the transaction ID that a message carries within a streamed
    /// transaction.
    pub fn read_xid(&mut self, in_streamed_transaction: bool) -> (result: Result<
        Option<u32>,
        Failure,
    >)
        requires
            old(self).wf(),
        ensures
            final(self).wf(),
            final(self).continues(*old(self)),
            outcome(result, final(self)@) == decode_xid(in_streamed_transaction, old(self)@),
            result is Err ==> *final(self) == *old(self),
    {
        if in_streamed_transaction {
            let xid = self.read_u32_be()?;
            Ok(Some(xid))
        } else {
            Ok(None)
        }
    }
}

} // verus!

//! Rows as they appear in the replication stream.

use crate::buffer::{outcome, Buffer};
use crate::error::{Failure, ParseError};
use crate::model::{decode_row, decode_tuple_value, tuple_value_decoder, Row, TupleValue};
use crate::tags::{TUPLE_DATA_NULL_TAG, TUPLE_DATA_TEXT_TAG, TUPLE_DATA_TOAST_TAG};
use crate::trusted::contents;
use crate::wire::{decode_list, prepend};
use crate::wire_lemmas::{lemma_prepend_both, lemma_prepend_nothing};
use bytes::Bytes;
use vstd::prelude::*;

verus! {

/// A row as it appears in the replication stream
#[derive(Debug)]
pub struct Tuple(Vec<TupleData>);

/// The data of an individual column as it appears in the replication stream
#[derive(Debug)]
pub enum TupleData {
    /// Represents a NULL value
    Null,
    /// Represents an unchanged TOASTed value (the actual value is not sent).
    UnchangedToast,
    /// Column data as text formatted value.
    Text(Bytes),
}

impl View for TupleData {
    type V = TupleValue;

    open spec fn view(&self) -> TupleValue {
        match *self {
            TupleData::Null => TupleValue::Null,
            TupleData::UnchangedToast => TupleValue::UnchangedToast,
            TupleData::Text(bytes) => TupleValue::Text(contents(bytes)),
        }
    }
}

/// The column values that a list of data stands for.
pub open spec fn values(data: Seq<TupleData>) -> Row {
    Seq::new(data.len(), |i: int| data[i]@)
}

impl View for Tuple {
    type V = Row;

    closed spec fn view(&self) -> Row {
        values(self.0@)
    }
}

impl Tuple {
    #[inline]
    /// The tuple data of this tuple
    pub fn tuple_data(&self) -> (data: &[TupleData])
        ensures
            values(data@) == self@,
            data@.len() == self@.len(),
            forall|i: int|
                0 <= i < data@.len() ==> match #[trigger] data@[i] {
                    TupleData::Null => self@[i] == TupleValue::Null,
                    TupleData::UnchangedToast => self@[i] == TupleValue::UnchangedToast,
                    TupleData::Text(bytes) => self@[i] == TupleValue::Text(contents(bytes)),
                },
    {
        &self.0
    }

    pub(crate) fn parse(buf: &mut Buffer) -> (result: Result<Tuple, Failure>)
        requires
            old(buf).wf(),
        ensures
            final(buf).wf(),
            final(buf).continues(*old(buf)),
            outcome(result, final(buf)@) == decode_row(old(buf)@),
    {
        let col_len = buf.read_i16_be()?;
        if col_len < 0 {
            return Err(Failure::NegativeCount);
        }
        let mut tuple: Vec<TupleData> = Vec::with_capacity(col_len as usize);
        let mut i: i16 = 0;
        proof {
            assert(values(tuple@) == Seq::<TupleValue>::empty());
            lemma_prepend_nothing(decode_list(tuple_value_decoder(), col_len as int, buf@));
        }
        while i < col_len
            invariant
                buf.wf(),
                buf.continues(*old(buf)),
                0 <= i <= col_len,
                decode_row(old(buf)@) == prepend(
                    values(tuple@),
                    decode_list(tuple_value_decoder(), col_len - i, buf@),
                ),
            decreases col_len - i,
        {
            let ghost read = values(tuple@);
            let data = TupleData::parse(buf)?;
            tuple.push(data);
            i = i + 1;
            proof {
                assert(values(tuple@) == read + seq![data@]);
                lemma_prepend_both(
                    read,
                    seq![data@],
                    decode_list(tuple_value_decoder(), col_len - i, buf@),
                );
            }
        }
        Ok(Tuple(tuple))
    }
}

impl TupleData {
    pub(crate) fn parse(buf: &mut Buffer) -> (result: Result<TupleData, Failure>)
        requires
            old(buf).wf(),
        ensures
            final(buf).wf(),
            final(buf).continues(*old(buf)),
            outcome(result, final(buf)@) == decode_tuple_value(old(buf)@),
            result is Err ==> final(buf)@ == (if old(buf)@.len() == 0 {
                old(buf)@
            } else if old(buf)@[0] == TUPLE_DATA_TEXT_TAG && old(buf)@.len() >= 5 {
                old(buf)@.skip(5)
            } else {
                old(buf)@.skip(1)
            }),
    {
        let type_tag = buf.read_u8()?;

        let tuple = match type_tag {
            TUPLE_DATA_NULL_TAG => TupleData::Null,
            TUPLE_DATA_TOAST_TAG => TupleData::UnchangedToast,
            TUPLE_DATA_TEXT_TAG => {
                let len = buf.read_i32_be()?;
                if len < 0 {
                    // A negative length is beyond any number of bytes.
                    return Err(Failure::Rejected(ParseError::UnexpectedEof));
                }
                let data = buf.read_len(len as usize)?;
                TupleData::Text(data)
            },
            tag => {
                return Err(Failure::Rejected(ParseError::UnknownMessageTag(tag)));
            },
        };

        Ok(tuple)
    }
}

} // verus!

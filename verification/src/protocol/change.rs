//! What happened to the rows of tables.

use crate::buffer::{outcome, Buffer};
use crate::error::{Failure, ParseError};
use crate::model::{
    decode_delete, decode_insert, decode_new_row, decode_truncate, decode_update, rel_id_decoder,
    Delete, Insert, Row, Truncate, Update,
};
use crate::protocol::tuple::Tuple;
use crate::tags::{TUPLE_KEY_TAG, TUPLE_NEW_TAG, TUPLE_OLD_TAG};
use crate::wire::{decode_list, prepend};
use crate::wire_lemmas::{lemma_prepend_both, lemma_prepend_nothing};
use vstd::prelude::*;

verus! {

/// The row that a tuple stands for, where there is a tuple.
pub open spec fn row_of(tuple: Option<Tuple>) -> Option<Row> {
    match tuple {
        Some(tuple) => Some(tuple@),
        None => None,
    }
}

/// Reads the tag of a new tuple, and the tuple.
fn parse_new_tuple(buf: &mut Buffer) -> (result: Result<Tuple, Failure>)
    requires
        old(buf).wf(),
    ensures
        final(buf).wf(),
        final(buf).continues(*old(buf)),
        outcome(result, final(buf)@) == decode_new_row(old(buf)@),
{
    match buf.read_u8()? {
        TUPLE_NEW_TAG => Tuple::parse(buf),
        tag => Err(Failure::Rejected(ParseError::UnexpectedTupleTag(tag))),
    }
}

/// An INSERT statement
#[derive(Debug)]
pub struct InsertBody {
    xid: Option<u32>,
    rel_id: u32,
    tuple: Tuple,
}

impl View for InsertBody {
    type V = Insert;

    closed spec fn view(&self) -> Insert {
        Insert { xid: self.xid, rel_id: self.rel_id, tuple: self.tuple@ }
    }
}

impl InsertBody {
    #[inline]
    pub fn xid(&self) -> (value: Option<u32>)
        ensures
            value == self@.xid,
    {
        self.xid
    }

    #[inline]
    /// ID of the relation corresponding to the ID in the relation message.
    pub fn rel_id(&self) -> (value: u32)
        ensures
            value == self@.rel_id,
    {
        self.rel_id
    }

    #[inline]
    /// The inserted tuple
    pub fn tuple(&self) -> (tuple: &Tuple)
        ensures
            tuple@ == self@.tuple,
    {
        &self.tuple
    }

    pub(crate) fn parse(buf: &mut Buffer, in_streamed_transaction: bool) -> (result: Result<
        InsertBody,
        Failure,
    >)
        requires
            old(buf).wf(),
        ensures
            final(buf).wf(),
            final(buf).continues(*old(buf)),
            outcome(result, final(buf)@) == decode_insert(in_streamed_transaction, old(buf)@),
    {
        let xid = buf.read_xid(in_streamed_transaction)?;
        let rel_id = buf.read_u32_be()?;
        let tuple = parse_new_tuple(buf)?;
        Ok(InsertBody { xid, rel_id, tuple })
    }
}

/// An UPDATE statement
#[derive(Debug)]
pub struct UpdateBody {
    xid: Option<u32>,
    rel_id: u32,
    old_tuple: Option<Tuple>,
    key_tuple: Option<Tuple>,
    new_tuple: Tuple,
}

impl View for UpdateBody {
    type V = Update;

    closed spec fn view(&self) -> Update {
        Update {
            xid: self.xid,
            rel_id: self.rel_id,
            old_tuple: row_of(self.old_tuple),
            key_tuple: row_of(self.key_tuple),
            new_tuple: self.new_tuple@,
        }
    }
}

impl UpdateBody {
    #[inline]
    pub fn xid(&self) -> (value: Option<u32>)
        ensures
            value == self@.xid,
    {
        self.xid
    }

    #[inline]
    /// ID of the relation corresponding to the ID in the relation message.
    pub fn rel_id(&self) -> (value: u32)
        ensures
            value == self@.rel_id,
    {
        self.rel_id
    }

    #[inline]
    /// This field is optional and is only present if the update changed data in any of the
    /// column(s) that are part of the REPLICA IDENTITY index.
    pub fn key_tuple(&self) -> (tuple: Option<&Tuple>)
        ensures
            match tuple {
                Some(tuple) => self@.key_tuple == Some(tuple@),
                None => self@.key_tuple is None,
            },
    {
        self.key_tuple.as_ref()
    }

    #[inline]
    /// This field is optional and is only present if table in which the update happened has
    /// REPLICA IDENTITY set to FULL.
    pub fn old_tuple(&self) -> (tuple: Option<&Tuple>)
        ensures
            match tuple {
                Some(tuple) => self@.old_tuple == Some(tuple@),
                None => self@.old_tuple is None,
            },
    {
        self.old_tuple.as_ref()
    }

    #[inline]
    /// The new tuple
    pub fn new_tuple(&self) -> (tuple: &Tuple)
        ensures
            tuple@ == self@.new_tuple,
    {
        &self.new_tuple
    }

    pub(crate) fn parse(buf: &mut Buffer, in_streamed_transaction: bool) -> (result: Result<
        UpdateBody,
        Failure,
    >)
        requires
            old(buf).wf(),
        ensures
            final(buf).wf(),
            final(buf).continues(*old(buf)),
            outcome(result, final(buf)@) == decode_update(in_streamed_transaction, old(buf)@),
    {
        let xid = buf.read_xid(in_streamed_transaction)?;
        let rel_id = buf.read_u32_be()?;
        let tag = buf.read_u8()?;

        let mut key_tuple: Option<Tuple> = None;
        let mut old_tuple: Option<Tuple> = None;

        let new_tuple = match tag {
            TUPLE_NEW_TAG => Tuple::parse(buf)?,
            TUPLE_OLD_TAG | TUPLE_KEY_TAG => {
                if tag == TUPLE_OLD_TAG {
                    old_tuple = Some(Tuple::parse(buf)?);
                } else {
                    key_tuple = Some(Tuple::parse(buf)?);
                }
                parse_new_tuple(buf)?
            },
            tag => {
                return Err(Failure::Rejected(ParseError::UnknownTupleTag(tag)));
            },
        };

        Ok(UpdateBody { xid, rel_id, old_tuple, key_tuple, new_tuple })
    }
}

/// A DELETE statement
#[derive(Debug)]
pub struct DeleteBody {
    xid: Option<u32>,
    rel_id: u32,
    old_tuple: Option<Tuple>,
    key_tuple: Option<Tuple>,
}

impl View for DeleteBody {
    type V = Delete;

    closed spec fn view(&self) -> Delete {
        Delete {
            xid: self.xid,
            rel_id: self.rel_id,
            old_tuple: row_of(self.old_tuple),
            key_tuple: row_of(self.key_tuple),
        }
    }
}

impl DeleteBody {
    #[inline]
    pub fn xid(&self) -> (value: Option<u32>)
        ensures
            value == self@.xid,
    {
        self.xid
    }

    #[inline]
    /// ID of the relation corresponding to the ID in the relation message.
    pub fn rel_id(&self) -> (value: u32)
        ensures
            value == self@.rel_id,
    {
        self.rel_id
    }

    #[inline]
    /// This field is present if the table in which the delete has happened uses an index as
    /// REPLICA IDENTITY.
    pub fn key_tuple(&self) -> (tuple: Option<&Tuple>)
        ensures
            match tuple {
                Some(tuple) => self@.key_tuple == Some(tuple@),
                None => self@.key_tuple is None,
            },
    {
        self.key_tuple.as_ref()
    }

    #[inline]
    /// This field is present if the table in which the delete has happened has REPLICA IDENTITY
    /// set to FULL.
    pub fn old_tuple(&self) -> (tuple: Option<&Tuple>)
        ensures
            match tuple {
                Some(tuple) => self@.old_tuple == Some(tuple@),
                None => self@.old_tuple is None,
            },
    {
        self.old_tuple.as_ref()
    }

    pub(crate) fn parse(buf: &mut Buffer, in_streamed_transaction: bool) -> (result: Result<
        DeleteBody,
        Failure,
    >)
        requires
            old(buf).wf(),
        ensures
            final(buf).wf(),
            final(buf).continues(*old(buf)),
            outcome(result, final(buf)@) == decode_delete(in_streamed_transaction, old(buf)@),
    {
        let xid = buf.read_xid(in_streamed_transaction)?;
        let rel_id = buf.read_u32_be()?;
        let tag = buf.read_u8()?;

        let mut key_tuple: Option<Tuple> = None;
        let mut old_tuple: Option<Tuple> = None;

        match tag {
            TUPLE_OLD_TAG => old_tuple = Some(Tuple::parse(buf)?),
            TUPLE_KEY_TAG => key_tuple = Some(Tuple::parse(buf)?),
            tag => {
                return Err(Failure::Rejected(ParseError::UnknownTupleTag(tag)));
            },
        }

        Ok(DeleteBody { xid, rel_id, old_tuple, key_tuple })
    }
}

/// Reads as many relation IDs as `relation_len` says.
fn parse_rel_ids(buf: &mut Buffer, relation_len: i32) -> (result: Result<Vec<u32>, Failure>)
    requires
        old(buf).wf(),
    ensures
        final(buf).wf(),
        final(buf).continues(*old(buf)),
        outcome(result, final(buf)@) == decode_list(
            rel_id_decoder(),
            relation_len as int,
            old(buf)@,
        ),
{
    if relation_len < 0 {
        return Err(Failure::NegativeCount);
    }
    // The list grows as it is read: the announced number may be far beyond what
    // the input holds.
    let mut rel_ids: Vec<u32> = Vec::new();
    let mut i: i32 = 0;
    proof {
        lemma_prepend_nothing(decode_list(rel_id_decoder(), relation_len as int, buf@));
    }
    while i < relation_len
        invariant
            buf.wf(),
            buf.continues(*old(buf)),
            0 <= i <= relation_len,
            decode_list(rel_id_decoder(), relation_len as int, old(buf)@) == prepend(
                rel_ids@,
                decode_list(rel_id_decoder(), relation_len - i, buf@),
            ),
        decreases relation_len - i,
    {
        let ghost read = rel_ids@;
        let rel_id = buf.read_u32_be()?;
        rel_ids.push(rel_id);
        i = i + 1;
        proof {
            assert(rel_ids@ == read + seq![rel_id]);
            lemma_prepend_both(
                read,
                seq![rel_id],
                decode_list(rel_id_decoder(), relation_len - i, buf@),
            );
        }
    }
    Ok(rel_ids)
}

/// A TRUNCATE statement
#[derive(Debug)]
pub struct TruncateBody {
    xid: Option<u32>,
    options: i8,
    rel_ids: Vec<u32>,
}

impl View for TruncateBody {
    type V = Truncate;

    closed spec fn view(&self) -> Truncate {
        Truncate { xid: self.xid, options: self.options, rel_ids: self.rel_ids@ }
    }
}

impl TruncateBody {
    #[inline]
    pub fn xid(&self) -> (value: Option<u32>)
        ensures
            value == self@.xid,
    {
        self.xid
    }

    #[inline]
    /// The IDs of the relations corresponding to the ID in the relation messages
    pub fn rel_ids(&self) -> (rel_ids: &[u32])
        ensures
            rel_ids@ == self@.rel_ids,
    {
        &self.rel_ids
    }

    #[inline]
    /// Option bits for TRUNCATE: 1 for CASCADE, 2 for RESTART IDENTITY
    pub fn options(&self) -> (value: i8)
        ensures
            value == self@.options,
    {
        self.options
    }

    pub(crate) fn parse(buf: &mut Buffer, in_streamed_transaction: bool) -> (result: Result<
        TruncateBody,
        Failure,
    >)
        requires
            old(buf).wf(),
        ensures
            final(buf).wf(),
            final(buf).continues(*old(buf)),
            outcome(result, final(buf)@) == decode_truncate(in_streamed_transaction, old(buf)@),
    {
        let xid = buf.read_xid(in_streamed_transaction)?;
        let relation_len = buf.read_i32_be()?;
        let options = buf.read_i8()?;
        let rel_ids = parse_rel_ids(buf, relation_len)?;
        Ok(TruncateBody { xid, options, rel_ids })
    }
}

} // verus!

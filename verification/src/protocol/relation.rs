//! Descriptions of tables and of data types.

use crate::buffer::{outcome, Buffer};
use crate::error::{Failure, ParseError};
use crate::model::{
    column_decoder, decode_column, decode_columns, decode_relation, decode_replica_identity,
    decode_type, ColumnInfo, Relation, TypeInfo,
};
use crate::tags::{
    REPLICA_IDENTITY_DEFAULT_TAG, REPLICA_IDENTITY_FULL_TAG, REPLICA_IDENTITY_INDEX_TAG,
    REPLICA_IDENTITY_NOTHING_TAG,
};
use crate::text::{get_str, is_text_of};
use crate::trusted::contents;
use crate::wire::{decode_list, prepend, Decoded};
use crate::wire_lemmas::{lemma_prepend_both, lemma_prepend_nothing};
use bytes::Bytes;
use postgres_protocol::Oid;
use std::ops::Deref;
use vstd::prelude::*;

verus! {

/// A column as it appears in the replication stream
#[derive(Debug)]
pub struct Column {
    flags: i8,
    name: Bytes,
    type_id: i32,
    type_modifier: i32,
}

impl View for Column {
    type V = ColumnInfo;

    closed spec fn view(&self) -> ColumnInfo {
        ColumnInfo {
            flags: self.flags,
            name: contents(self.name),
            type_id: self.type_id,
            type_modifier: self.type_modifier,
        }
    }
}

impl Column {
    #[inline]
    /// Flags for the column. Currently can be either 0 for no flags or 1 which marks the column as
    /// part of the key.
    pub fn flags(&self) -> (value: i8)
        ensures
            value == self@.flags,
    {
        self.flags
    }

    #[inline]
    /// Name of the column.
    pub fn name(&self) -> (text: Result<&str, ParseError>)
        ensures
            is_text_of(text, self@.name),
    {
        get_str(self.name.deref())
    }

    #[inline]
    /// ID of the column's data type.
    pub fn type_id(&self) -> (value: i32)
        ensures
            value == self@.type_id,
    {
        self.type_id
    }

    #[inline]
    /// Type modifier of the column (`atttypmod`).
    pub fn type_modifier(&self) -> (value: i32)
        ensures
            value == self@.type_modifier,
    {
        self.type_modifier
    }

    pub(crate) fn parse(buf: &mut Buffer) -> (result: Result<Column, Failure>)
        requires
            old(buf).wf(),
        ensures
            final(buf).wf(),
            final(buf).continues(*old(buf)),
            outcome(result, final(buf)@) == decode_column(old(buf)@),
    {
        Ok(
            Column {
                flags: buf.read_i8()?,
                name: buf.read_cstr()?,
                type_id: buf.read_i32_be()?,
                type_modifier: buf.read_i32_be()?,
            },
        )
    }

    /// Reads the number of columns, and the columns.
    fn parse_list(buf: &mut Buffer) -> (result: Result<Vec<Column>, Failure>)
        requires
            old(buf).wf(),
        ensures
            final(buf).wf(),
            final(buf).continues(*old(buf)),
            match result {
                Ok(columns) => decode_columns(old(buf)@) == Decoded::Value(
                    infos(columns@),
                    final(buf)@,
                ),
                Err(failure) => decode_columns(old(buf)@) == Decoded::<Seq<ColumnInfo>>::Failed(
                    failure,
                    final(buf)@,
                ),
            },
    {
        let column_len = buf.read_i16_be()?;
        if column_len < 0 {
            return Err(Failure::NegativeCount);
        }
        let mut columns: Vec<Column> = Vec::with_capacity(column_len as usize);
        let mut i: i16 = 0;
        proof {
            assert(infos(columns@) == Seq::<ColumnInfo>::empty());
            lemma_prepend_nothing(decode_list(column_decoder(), column_len as int, buf@));
        }
        while i < column_len
            invariant
                buf.wf(),
                buf.continues(*old(buf)),
                0 <= i <= column_len,
                decode_columns(old(buf)@) == prepend(
                    infos(columns@),
                    decode_list(column_decoder(), column_len - i, buf@),
                ),
            decreases column_len - i,
        {
            let ghost read = infos(columns@);
            let column = Column::parse(buf)?;
            columns.push(column);
            i = i + 1;
            proof {
                assert(infos(columns@) == read + seq![column@]);
                lemma_prepend_both(
                    read,
                    seq![column@],
                    decode_list(column_decoder(), column_len - i, buf@),
                );
            }
        }
        Ok(columns)
    }
}

/// The models that a list of columns stands for.
pub open spec fn infos(columns: Seq<Column>) -> Seq<ColumnInfo> {
    Seq::new(columns.len(), |i: int| columns[i]@)
}

/// Describes the REPLICA IDENTITY setting of a table
#[derive(Debug)]
pub enum ReplicaIdentity {
    /// default selection for replica identity (primary key or nothing)
    Default,
    /// no replica identity is logged for this relation
    Nothing,
    /// all columns are logged as replica identity
    Full,
    /// An explicitly chosen candidate key's columns are used as replica identity.
    /// Note this will still be set if the index has been dropped; in that case it
    /// has the same meaning as 'd'.
    Index,
}

impl View for ReplicaIdentity {
    type V = ReplicaIdentity;

    open spec fn view(&self) -> ReplicaIdentity {
        *self
    }
}

impl ReplicaIdentity {
    fn parse(buf: &mut Buffer) -> (result: Result<ReplicaIdentity, Failure>)
        requires
            old(buf).wf(),
        ensures
            final(buf).wf(),
            final(buf).continues(*old(buf)),
            outcome(result, final(buf)@) == decode_replica_identity(old(buf)@),
    {
        match buf.read_u8()? {
            REPLICA_IDENTITY_DEFAULT_TAG => Ok(ReplicaIdentity::Default),
            REPLICA_IDENTITY_NOTHING_TAG => Ok(ReplicaIdentity::Nothing),
            REPLICA_IDENTITY_FULL_TAG => Ok(ReplicaIdentity::Full),
            REPLICA_IDENTITY_INDEX_TAG => Ok(ReplicaIdentity::Index),
            tag => Err(Failure::Rejected(ParseError::UnknownReplicaIdentityTag(tag))),
        }
    }
}

/// A Relation replication message
#[derive(Debug)]
pub struct RelationBody {
    xid: Option<u32>,
    rel_id: u32,
    namespace: Bytes,
    name: Bytes,
    replica_identity: ReplicaIdentity,
    columns: Vec<Column>,
}

impl View for RelationBody {
    type V = Relation;

    closed spec fn view(&self) -> Relation {
        Relation {
            xid: self.xid,
            rel_id: self.rel_id,
            namespace: contents(self.namespace),
            name: contents(self.name),
            replica_identity: self.replica_identity,
            columns: infos(self.columns@),
        }
    }
}

impl RelationBody {
    #[inline]
    /// The transaction ID of the transaction that started the stream
    pub fn xid(&self) -> (value: Option<u32>)
        ensures
            value == self@.xid,
    {
        self.xid
    }

    #[inline]
    /// ID of the relation.
    pub fn rel_id(&self) -> (value: u32)
        ensures
            value == self@.rel_id,
    {
        self.rel_id
    }

    #[inline]
    /// Namespace (empty string for pg_catalog).
    pub fn namespace(&self) -> (text: Result<&str, ParseError>)
        ensures
            is_text_of(text, self@.namespace),
    {
        get_str(self.namespace.deref())
    }

    #[inline]
    /// Relation name.
    pub fn name(&self) -> (text: Result<&str, ParseError>)
        ensures
            is_text_of(text, self@.name),
    {
        get_str(self.name.deref())
    }

    #[inline]
    /// Replica identity setting for the relation
    pub fn replica_identity(&self) -> (identity: &ReplicaIdentity)
        ensures
            *identity == self@.replica_identity,
    {
        &self.replica_identity
    }

    #[inline]
    /// The column definitions of this relation
    pub fn columns(&self) -> (columns: &[Column])
        ensures
            infos(columns@) == self@.columns,
            columns@.len() == self@.columns.len(),
            forall|i: int|
                0 <= i < columns@.len() ==> self@.columns[i] == (#[trigger] columns@[i])@,
    {
        &self.columns
    }

    pub(crate) fn parse(buf: &mut Buffer, in_streamed_transaction: bool) -> (result: Result<
        RelationBody,
        Failure,
    >)
        requires
            old(buf).wf(),
        ensures
            final(buf).wf(),
            final(buf).continues(*old(buf)),
            outcome(result, final(buf)@) == decode_relation(in_streamed_transaction, old(buf)@),
    {
        let xid = buf.read_xid(in_streamed_transaction)?;
        let rel_id = buf.read_u32_be()?;
        let namespace = buf.read_cstr()?;
        let name = buf.read_cstr()?;
        let replica_identity = ReplicaIdentity::parse(buf)?;
        let columns = Column::parse_list(buf)?;
        Ok(RelationBody { xid, rel_id, namespace, name, replica_identity, columns })
    }
}

/// A Type replication message
#[derive(Debug)]
pub struct TypeBody {
    xid: Option<u32>,
    id: u32,
    namespace: Bytes,
    name: Bytes,
}

impl View for TypeBody {
    type V = TypeInfo;

    closed spec fn view(&self) -> TypeInfo {
        TypeInfo {
            xid: self.xid,
            id: self.id,
            namespace: contents(self.namespace),
            name: contents(self.name),
        }
    }
}

impl TypeBody {
    #[inline]
    /// The transaction ID of the transaction that started the stream
    pub fn xid(&self) -> (value: Option<u32>)
        ensures
            value == self@.xid,
    {
        self.xid
    }

    #[inline]
    /// ID of the data type.
    pub fn id(&self) -> (value: Oid)
        ensures
            value == self@.id,
    {
        self.id
    }

    #[inline]
    /// Namespace (empty string for pg_catalog).
    pub fn namespace(&self) -> (text: Result<&str, ParseError>)
        ensures
            is_text_of(text, self@.namespace),
    {
        get_str(self.namespace.deref())
    }

    #[inline]
    /// Name of the data type.
    pub fn name(&self) -> (text: Result<&str, ParseError>)
        ensures
            is_text_of(text, self@.name),
    {
        get_str(self.name.deref())
    }

    pub(crate) fn parse(buf: &mut Buffer, in_streamed_transaction: bool) -> (result: Result<
        TypeBody,
        Failure,
    >)
        requires
            old(buf).wf(),
        ensures
            final(buf).wf(),
            final(buf).continues(*old(buf)),
            outcome(result, final(buf)@) == decode_type(in_streamed_transaction, old(buf)@),
    {
        Ok(
            TypeBody {
                xid: buf.read_xid(in_streamed_transaction)?,
                id: buf.read_u32_be()?,
                namespace: buf.read_cstr()?,
                name: buf.read_cstr()?,
            },
        )
    }
}

} // verus!

//! What messages mean and how they are laid out.
//!
//! Each kind of message has a model here, which the contracts speak of: the
//! same fields, with byte sequences in place of byte buffers. For each model
//! `decode_..` says what the start of an input comes to and how far it is read,
//! and `put_..` writes the model in front of other bytes.

use crate::error::ParseError;
use crate::protocol::relation::ReplicaIdentity;
use crate::tags::{
    BEGIN_TAG, COMMIT_TAG, DELETE_TAG, INSERT_TAG, ORIGIN_TAG, PRIMARY_KEEPALIVE_TAG, RELATION_TAG,
    REPLICA_IDENTITY_DEFAULT_TAG, REPLICA_IDENTITY_FULL_TAG, REPLICA_IDENTITY_INDEX_TAG,
    REPLICA_IDENTITY_NOTHING_TAG, STREAM_ABORT_TAG, STREAM_COMMIT_TAG, STREAM_START_TAG,
    STREAM_STOP_TAG, TRUNCATE_TAG, TUPLE_DATA_NULL_TAG, TUPLE_DATA_TEXT_TAG, TUPLE_DATA_TOAST_TAG,
    TUPLE_KEY_TAG, TUPLE_NEW_TAG, TUPLE_OLD_TAG, TYPE_TAG, UPDATE_TAG, XLOG_DATA_TAG,
};
use crate::wire::{
    decode_bytes, decode_cstr, decode_i16, decode_i32, decode_i64, decode_i8, decode_list,
    decode_u32, decode_u64, decode_u8, is_cstr, put_cstr, put_i16, put_i32, put_i64, put_i8,
    put_list, put_u32, put_u64, put_u8, rejected, Decoded,
};
use vstd::prelude::*;

verus! {

// ---- Replication messages ----

/// A piece of the write-ahead log, with data of any type.
pub struct XLogData<D> {
    pub wal_start: u64,
    pub wal_end: u64,
    pub timestamp: i64,
    pub data: D,
}

pub struct KeepAlive {
    pub wal_end: u64,
    pub timestamp: i64,
    pub reply: u8,
}

pub enum Replication {
    XLogData(XLogData<Seq<u8>>),
    PrimaryKeepAlive(KeepAlive),
}

/// The data are all the bytes behind the three numbers.
pub open spec fn decode_xlog_data(s: Seq<u8>) -> Decoded<XLogData<Seq<u8>>> {
    decode_u64(s).chain(
        |wal_start: u64, s: Seq<u8>|
            decode_u64(s).chain(
                |wal_end: u64, s: Seq<u8>|
                    decode_i64(s).chain(
                        |timestamp: i64, s: Seq<u8>|
                            Decoded::Value(
                                XLogData { wal_start, wal_end, timestamp, data: s },
                                Seq::empty(),
                            ),
                    ),
            ),
    )
}

pub open spec fn decode_keep_alive(s: Seq<u8>) -> Decoded<KeepAlive> {
    decode_u64(s).chain(
        |wal_end: u64, s: Seq<u8>|
            decode_i64(s).chain(
                |timestamp: i64, s: Seq<u8>|
                    decode_u8(s).chain(
                        |reply: u8, s: Seq<u8>|
                            Decoded::Value(KeepAlive { wal_end, timestamp, reply }, s),
                    ),
            ),
    )
}

/// A replication message is a tag and what the tag announces.
pub open spec fn decode_replication(s: Seq<u8>) -> Decoded<Replication> {
    decode_u8(s).chain(
        |tag: u8, s: Seq<u8>|
            if tag == XLOG_DATA_TAG {
                decode_xlog_data(s).chain(
                    |body: XLogData<Seq<u8>>, s: Seq<u8>|
                        Decoded::Value(Replication::XLogData(body), s),
                )
            } else if tag == PRIMARY_KEEPALIVE_TAG {
                decode_keep_alive(s).chain(
                    |body: KeepAlive, s: Seq<u8>|
                        Decoded::Value(Replication::PrimaryKeepAlive(body), s),
                )
            } else {
                rejected(ParseError::UnknownMessageTag(tag), s)
            },
    )
}

/// The bytes of a replication message. Nothing can follow the data of a piece
/// of the log, so only a keepalive message has `rest` behind it.
pub open spec fn put_replication(message: Replication, rest: Seq<u8>) -> Seq<u8> {
    match message {
        Replication::XLogData(body) => put_u8(
            XLOG_DATA_TAG,
            put_u64(body.wal_start, put_u64(body.wal_end, put_i64(body.timestamp, body.data))),
        ),
        Replication::PrimaryKeepAlive(body) => put_u8(
            PRIMARY_KEEPALIVE_TAG,
            put_u64(body.wal_end, put_i64(body.timestamp, put_u8(body.reply, rest))),
        ),
    }
}

// ---- Tuples ----

/// The value of one column.
pub enum TupleValue {
    Null,
    UnchangedToast,
    Text(Seq<u8>),
}

/// The values of one row, in the order of its columns.
pub type Row = Seq<TupleValue>;

pub open spec fn decode_tuple_value(s: Seq<u8>) -> Decoded<TupleValue> {
    decode_u8(s).chain(
        |tag: u8, s: Seq<u8>|
            if tag == TUPLE_DATA_NULL_TAG {
                Decoded::Value(TupleValue::Null, s)
            } else if tag == TUPLE_DATA_TOAST_TAG {
                Decoded::Value(TupleValue::UnchangedToast, s)
            } else if tag == TUPLE_DATA_TEXT_TAG {
                decode_i32(s).chain(
                    |len: i32, s: Seq<u8>|
                        decode_bytes(len as int, s).chain(
                            |text: Seq<u8>, s: Seq<u8>| Decoded::Value(TupleValue::Text(text), s),
                        ),
                )
            } else {
                rejected(ParseError::UnknownMessageTag(tag), s)
            },
    )
}

/// [`decode_tuple_value`] as the reader of a list's entries.
pub open spec fn tuple_value_decoder() -> spec_fn(Seq<u8>) -> Decoded<TupleValue> {
    |s: Seq<u8>| decode_tuple_value(s)
}

pub open spec fn decode_row(s: Seq<u8>) -> Decoded<Row> {
    decode_i16(s).chain(
        |count: i16, s: Seq<u8>| decode_list(tuple_value_decoder(), count as int, s),
    )
}

pub open spec fn put_tuple_value(value: TupleValue, rest: Seq<u8>) -> Seq<u8> {
    match value {
        TupleValue::Null => put_u8(TUPLE_DATA_NULL_TAG, rest),
        TupleValue::UnchangedToast => put_u8(TUPLE_DATA_TOAST_TAG, rest),
        TupleValue::Text(text) => put_u8(
            TUPLE_DATA_TEXT_TAG,
            put_i32(text.len() as i32, text + rest),
        ),
    }
}

/// [`put_tuple_value`] as the writer of a list's entries.
pub open spec fn tuple_value_encoder() -> spec_fn(TupleValue, Seq<u8>) -> Seq<u8> {
    |value: TupleValue, rest: Seq<u8>| put_tuple_value(value, rest)
}

pub open spec fn put_row(row: Row, rest: Seq<u8>) -> Seq<u8> {
    put_i16(row.len() as i16, put_list(tuple_value_encoder(), row, rest))
}

/// The length of the text fits in front of it.
pub open spec fn valid_tuple_value(value: TupleValue) -> bool {
    value matches TupleValue::Text(text) ==> text.len() <= i32::MAX
}

/// [`valid_tuple_value`] as a condition on a list's entries.
pub open spec fn tuple_value_condition() -> spec_fn(TupleValue) -> bool {
    |value: TupleValue| valid_tuple_value(value)
}

/// The number of values fits in front of them.
pub open spec fn valid_row(row: Row) -> bool {
    &&& row.len() <= i16::MAX
    &&& forall|i: int| 0 <= i < row.len() ==> #[trigger] valid_tuple_value(row[i])
}

// ---- Relations ----

pub struct ColumnInfo {
    pub flags: i8,
    pub name: Seq<u8>,
    pub type_id: i32,
    pub type_modifier: i32,
}

pub open spec fn decode_column(s: Seq<u8>) -> Decoded<ColumnInfo> {
    decode_i8(s).chain(
        |flags: i8, s: Seq<u8>|
            decode_cstr(s).chain(
                |name: Seq<u8>, s: Seq<u8>|
                    decode_i32(s).chain(
                        |type_id: i32, s: Seq<u8>|
                            decode_i32(s).chain(
                                |type_modifier: i32, s: Seq<u8>|
                                    Decoded::Value(
                                        ColumnInfo { flags, name, type_id, type_modifier },
                                        s,
                                    ),
                            ),
                    ),
            ),
    )
}

/// [`decode_column`] as the reader of a list's entries.
pub open spec fn column_decoder() -> spec_fn(Seq<u8>) -> Decoded<ColumnInfo> {
    |s: Seq<u8>| decode_column(s)
}

pub open spec fn put_column(column: ColumnInfo, rest: Seq<u8>) -> Seq<u8> {
    put_i8(
        column.flags,
        put_cstr(column.name, put_i32(column.type_id, put_i32(column.type_modifier, rest))),
    )
}

/// [`put_column`] as the writer of a list's entries.
pub open spec fn column_encoder() -> spec_fn(ColumnInfo, Seq<u8>) -> Seq<u8> {
    |column: ColumnInfo, rest: Seq<u8>| put_column(column, rest)
}

pub open spec fn valid_column(column: ColumnInfo) -> bool {
    is_cstr(column.name)
}

/// [`valid_column`] as a condition on a list's entries.
pub open spec fn column_condition() -> spec_fn(ColumnInfo) -> bool {
    |column: ColumnInfo| valid_column(column)
}

pub open spec fn decode_replica_identity(s: Seq<u8>) -> Decoded<ReplicaIdentity> {
    decode_u8(s).chain(
        |tag: u8, s: Seq<u8>|
            if tag == REPLICA_IDENTITY_DEFAULT_TAG {
                Decoded::Value(ReplicaIdentity::Default, s)
            } else if tag == REPLICA_IDENTITY_NOTHING_TAG {
                Decoded::Value(ReplicaIdentity::Nothing, s)
            } else if tag == REPLICA_IDENTITY_FULL_TAG {
                Decoded::Value(ReplicaIdentity::Full, s)
            } else if tag == REPLICA_IDENTITY_INDEX_TAG {
                Decoded::Value(ReplicaIdentity::Index, s)
            } else {
                rejected(ParseError::UnknownReplicaIdentityTag(tag), s)
            },
    )
}

pub open spec fn put_replica_identity(identity: ReplicaIdentity, rest: Seq<u8>) -> Seq<u8> {
    put_u8(
        match identity {
            ReplicaIdentity::Default => REPLICA_IDENTITY_DEFAULT_TAG,
            ReplicaIdentity::Nothing => REPLICA_IDENTITY_NOTHING_TAG,
            ReplicaIdentity::Full => REPLICA_IDENTITY_FULL_TAG,
            ReplicaIdentity::Index => REPLICA_IDENTITY_INDEX_TAG,
        },
        rest,
    )
}

/// The transaction ID that a message carries within a streamed transaction, and
/// only there.
pub open spec fn decode_xid(streamed: bool, s: Seq<u8>) -> Decoded<Option<u32>> {
    if streamed {
        decode_u32(s).chain(|xid: u32, s: Seq<u8>| Decoded::Value(Some(xid), s))
    } else {
        Decoded::Value(None, s)
    }
}

pub open spec fn put_xid(xid: Option<u32>, rest: Seq<u8>) -> Seq<u8> {
    match xid {
        Some(xid) => put_u32(xid, rest),
        None => rest,
    }
}

pub struct Relation {
    pub xid: Option<u32>,
    pub rel_id: u32,
    pub namespace: Seq<u8>,
    pub name: Seq<u8>,
    pub replica_identity: ReplicaIdentity,
    pub columns: Seq<ColumnInfo>,
}

pub open spec fn decode_relation(streamed: bool, s: Seq<u8>) -> Decoded<Relation> {
    decode_xid(streamed, s).chain(
        |xid: Option<u32>, s: Seq<u8>|
            decode_u32(s).chain(
                |rel_id: u32, s: Seq<u8>|
                    decode_cstr(s).chain(
                        |namespace: Seq<u8>, s: Seq<u8>|
                            decode_cstr(s).chain(
                                |name: Seq<u8>, s: Seq<u8>|
                                    decode_replica_identity(s).chain(
                                        |replica_identity: ReplicaIdentity, s: Seq<u8>|
                                            decode_columns(s).chain(
                                                |columns: Seq<ColumnInfo>, s: Seq<u8>|
                                                    Decoded::Value(
                                                        Relation {
                                                            xid,
                                                            rel_id,
                                                            namespace,
                                                            name,
                                                            replica_identity,
                                                            columns,
                                                        },
                                                        s,
                                                    ),
                                            ),
                                    ),
                            ),
                    ),
            ),
    )
}

pub open spec fn decode_columns(s: Seq<u8>) -> Decoded<Seq<ColumnInfo>> {
    decode_i16(s).chain(|count: i16, s: Seq<u8>| decode_list(column_decoder(), count as int, s))
}

pub open spec fn put_columns(columns: Seq<ColumnInfo>, rest: Seq<u8>) -> Seq<u8> {
    put_i16(columns.len() as i16, put_list(column_encoder(), columns, rest))
}

pub open spec fn put_relation(body: Relation, rest: Seq<u8>) -> Seq<u8> {
    put_xid(
        body.xid,
        put_u32(
            body.rel_id,
            put_cstr(
                body.namespace,
                put_cstr(
                    body.name,
                    put_replica_identity(body.replica_identity, put_columns(body.columns, rest)),
                ),
            ),
        ),
    )
}

pub open spec fn valid_relation(streamed: bool, body: Relation) -> bool {
    &&& body.xid is Some <==> streamed
    &&& is_cstr(body.namespace)
    &&& is_cstr(body.name)
    &&& body.columns.len() <= i16::MAX
    &&& forall|i: int| 0 <= i < body.columns.len() ==> #[trigger] valid_column(body.columns[i])
}

pub struct TypeInfo {
    pub xid: Option<u32>,
    pub id: u32,
    pub namespace: Seq<u8>,
    pub name: Seq<u8>,
}

pub open spec fn decode_type(streamed: bool, s: Seq<u8>) -> Decoded<TypeInfo> {
    decode_xid(streamed, s).chain(
        |xid: Option<u32>, s: Seq<u8>|
            decode_u32(s).chain(
                |id: u32, s: Seq<u8>|
                    decode_cstr(s).chain(
                        |namespace: Seq<u8>, s: Seq<u8>|
                            decode_cstr(s).chain(
                                |name: Seq<u8>, s: Seq<u8>|
                                    Decoded::Value(TypeInfo { xid, id, namespace, name }, s),
                            ),
                    ),
            ),
    )
}

pub open spec fn put_type(body: TypeInfo, rest: Seq<u8>) -> Seq<u8> {
    put_xid(body.xid, put_u32(body.id, put_cstr(body.namespace, put_cstr(body.name, rest))))
}

pub open spec fn valid_type(streamed: bool, body: TypeInfo) -> bool {
    &&& body.xid is Some <==> streamed
    &&& is_cstr(body.namespace)
    &&& is_cstr(body.name)
}

// ---- Changes ----

/// The tag of a new tuple, and the tuple.
pub open spec fn decode_new_row(s: Seq<u8>) -> Decoded<Row> {
    decode_u8(s).chain(
        |tag: u8, s: Seq<u8>|
            if tag == TUPLE_NEW_TAG {
                decode_row(s)
            } else {
                rejected(ParseError::UnexpectedTupleTag(tag), s)
            },
    )
}

pub struct Insert {
    pub xid: Option<u32>,
    pub rel_id: u32,
    pub tuple: Row,
}

pub open spec fn decode_insert(streamed: bool, s: Seq<u8>) -> Decoded<Insert> {
    decode_xid(streamed, s).chain(
        |xid: Option<u32>, s: Seq<u8>|
            decode_u32(s).chain(
                |rel_id: u32, s: Seq<u8>|
                    decode_new_row(s).chain(
                        |tuple: Row, s: Seq<u8>|
                            Decoded::Value(Insert { xid, rel_id, tuple }, s),
                    ),
            ),
    )
}

pub open spec fn put_insert(body: Insert, rest: Seq<u8>) -> Seq<u8> {
    put_xid(body.xid, put_u32(body.rel_id, put_u8(TUPLE_NEW_TAG, put_row(body.tuple, rest))))
}

pub open spec fn valid_insert(streamed: bool, body: Insert) -> bool {
    &&& body.xid is Some <==> streamed
    &&& valid_row(body.tuple)
}

pub struct Update {
    pub xid: Option<u32>,
    pub rel_id: u32,
    pub old_tuple: Option<Row>,
    pub key_tuple: Option<Row>,
    pub new_tuple: Row,
}

/// What an update says of the row as it was: its old tuple, its key, or
/// nothing. Behind that stands the new tuple.
pub open spec fn decode_update_rows(s: Seq<u8>) -> Decoded<(Option<Row>, Option<Row>, Row)> {
    decode_u8(s).chain(
        |tag: u8, s: Seq<u8>|
            if tag == TUPLE_NEW_TAG {
                decode_row(s).chain(
                    |new_tuple: Row, s: Seq<u8>| Decoded::Value((None, None, new_tuple), s),
                )
            } else if tag == TUPLE_OLD_TAG {
                decode_row(s).chain(
                    |old_tuple: Row, s: Seq<u8>|
                        decode_new_row(s).chain(
                            |new_tuple: Row, s: Seq<u8>|
                                Decoded::Value((Some(old_tuple), None, new_tuple), s),
                        ),
                )
            } else if tag == TUPLE_KEY_TAG {
                decode_row(s).chain(
                    |key_tuple: Row, s: Seq<u8>|
                        decode_new_row(s).chain(
                            |new_tuple: Row, s: Seq<u8>|
                                Decoded::Value((None, Some(key_tuple), new_tuple), s),
                        ),
                )
            } else {
                rejected(ParseError::UnknownTupleTag(tag), s)
            },
    )
}

pub open spec fn decode_update(streamed: bool, s: Seq<u8>) -> Decoded<Update> {
    decode_xid(streamed, s).chain(
        |xid: Option<u32>, s: Seq<u8>|
            decode_u32(s).chain(
                |rel_id: u32, s: Seq<u8>|
                    decode_update_rows(s).chain(
                        |rows: (Option<Row>, Option<Row>, Row), s: Seq<u8>|
                            Decoded::Value(
                                Update {
                                    xid,
                                    rel_id,
                                    old_tuple: rows.0,
                                    key_tuple: rows.1,
                                    new_tuple: rows.2,
                                },
                                s,
                            ),
                    ),
            ),
    )
}

/// The old tuple or the key, whichever there is, in front of `rest`.
pub open spec fn put_previous(
    old_tuple: Option<Row>,
    key_tuple: Option<Row>,
    rest: Seq<u8>,
) -> Seq<u8> {
    match (old_tuple, key_tuple) {
        (Some(row), _) => put_u8(TUPLE_OLD_TAG, put_row(row, rest)),
        (_, Some(row)) => put_u8(TUPLE_KEY_TAG, put_row(row, rest)),
        _ => rest,
    }
}

pub open spec fn put_update(body: Update, rest: Seq<u8>) -> Seq<u8> {
    put_xid(
        body.xid,
        put_u32(
            body.rel_id,
            put_previous(
                body.old_tuple,
                body.key_tuple,
                put_u8(TUPLE_NEW_TAG, put_row(body.new_tuple, rest)),
            ),
        ),
    )
}

pub open spec fn valid_option(row: Option<Row>) -> bool {
    row matches Some(row) ==> valid_row(row)
}

/// There is an old tuple or a key, not both.
pub open spec fn valid_update(streamed: bool, body: Update) -> bool {
    &&& body.xid is Some <==> streamed
    &&& !(body.old_tuple is Some && body.key_tuple is Some)
    &&& valid_option(body.old_tuple)
    &&& valid_option(body.key_tuple)
    &&& valid_row(body.new_tuple)
}

pub struct Delete {
    pub xid: Option<u32>,
    pub rel_id: u32,
    pub old_tuple: Option<Row>,
    pub key_tuple: Option<Row>,
}

/// What a delete says of the row as it was: its old tuple, or its key.
pub open spec fn decode_delete_rows(s: Seq<u8>) -> Decoded<(Option<Row>, Option<Row>)> {
    decode_u8(s).chain(
        |tag: u8, s: Seq<u8>|
            if tag == TUPLE_OLD_TAG {
                decode_row(s).chain(
                    |old_tuple: Row, s: Seq<u8>| Decoded::Value((Some(old_tuple), None), s),
                )
            } else if tag == TUPLE_KEY_TAG {
                decode_row(s).chain(
                    |key_tuple: Row, s: Seq<u8>| Decoded::Value((None, Some(key_tuple)), s),
                )
            } else {
                rejected(ParseError::UnknownTupleTag(tag), s)
            },
    )
}

pub open spec fn decode_delete(streamed: bool, s: Seq<u8>) -> Decoded<Delete> {
    decode_xid(streamed, s).chain(
        |xid: Option<u32>, s: Seq<u8>|
            decode_u32(s).chain(
                |rel_id: u32, s: Seq<u8>|
                    decode_delete_rows(s).chain(
                        |rows: (Option<Row>, Option<Row>), s: Seq<u8>|
                            Decoded::Value(
                                Delete { xid, rel_id, old_tuple: rows.0, key_tuple: rows.1 },
                                s,
                            ),
                    ),
            ),
    )
}

pub open spec fn put_delete(body: Delete, rest: Seq<u8>) -> Seq<u8> {
    put_xid(body.xid, put_u32(body.rel_id, put_previous(body.old_tuple, body.key_tuple, rest)))
}

/// There is an old tuple or a key, and not both.
pub open spec fn valid_delete(streamed: bool, body: Delete) -> bool {
    &&& body.xid is Some <==> streamed
    &&& body.old_tuple is Some <==> body.key_tuple is None
    &&& valid_option(body.old_tuple)
    &&& valid_option(body.key_tuple)
}

pub struct Truncate {
    pub xid: Option<u32>,
    pub options: i8,
    pub rel_ids: Seq<u32>,
}

/// [`decode_u32`] as the reader of a list's entries.
pub open spec fn rel_id_decoder() -> spec_fn(Seq<u8>) -> Decoded<u32> {
    |s: Seq<u8>| decode_u32(s)
}

/// The number of relations stands in front of the options, the relations
/// behind them.
pub open spec fn decode_truncate(streamed: bool, s: Seq<u8>) -> Decoded<Truncate> {
    decode_xid(streamed, s).chain(
        |xid: Option<u32>, s: Seq<u8>|
            decode_i32(s).chain(
                |count: i32, s: Seq<u8>|
                    decode_i8(s).chain(
                        |options: i8, s: Seq<u8>|
                            decode_list(rel_id_decoder(), count as int, s).chain(
                                |rel_ids: Seq<u32>, s: Seq<u8>|
                                    Decoded::Value(Truncate { xid, options, rel_ids }, s),
                            ),
                    ),
            ),
    )
}

/// [`put_u32`] as the writer of a list's entries.
pub open spec fn rel_id_encoder() -> spec_fn(u32, Seq<u8>) -> Seq<u8> {
    |rel_id: u32, rest: Seq<u8>| put_u32(rel_id, rest)
}

pub open spec fn put_truncate(body: Truncate, rest: Seq<u8>) -> Seq<u8> {
    put_xid(
        body.xid,
        put_i32(
            body.rel_ids.len() as i32,
            put_i8(body.options, put_list(rel_id_encoder(), body.rel_ids, rest)),
        ),
    )
}

pub open spec fn valid_truncate(streamed: bool, body: Truncate) -> bool {
    &&& body.xid is Some <==> streamed
    &&& body.rel_ids.len() <= i32::MAX
}

// ---- Transactions ----

pub struct Begin {
    pub final_lsn: u64,
    pub timestamp: i64,
    pub xid: u32,
}

pub open spec fn decode_begin(s: Seq<u8>) -> Decoded<Begin> {
    decode_u64(s).chain(
        |final_lsn: u64, s: Seq<u8>|
            decode_i64(s).chain(
                |timestamp: i64, s: Seq<u8>|
                    decode_u32(s).chain(
                        |xid: u32, s: Seq<u8>|
                            Decoded::Value(Begin { final_lsn, timestamp, xid }, s),
                    ),
            ),
    )
}

pub open spec fn put_begin(body: Begin, rest: Seq<u8>) -> Seq<u8> {
    put_u64(body.final_lsn, put_i64(body.timestamp, put_u32(body.xid, rest)))
}

pub struct Commit {
    pub flags: i8,
    pub commit_lsn: u64,
    pub end_lsn: u64,
    pub timestamp: i64,
}

pub open spec fn decode_commit(s: Seq<u8>) -> Decoded<Commit> {
    decode_i8(s).chain(
        |flags: i8, s: Seq<u8>|
            decode_u64(s).chain(
                |commit_lsn: u64, s: Seq<u8>|
                    decode_u64(s).chain(
                        |end_lsn: u64, s: Seq<u8>|
                            decode_i64(s).chain(
                                |timestamp: i64, s: Seq<u8>|
                                    Decoded::Value(
                                        Commit { flags, commit_lsn, end_lsn, timestamp },
                                        s,
                                    ),
                            ),
                    ),
            ),
    )
}

pub open spec fn put_commit(body: Commit, rest: Seq<u8>) -> Seq<u8> {
    put_i8(
        body.flags,
        put_u64(body.commit_lsn, put_u64(body.end_lsn, put_i64(body.timestamp, rest))),
    )
}

pub struct Origin {
    pub commit_lsn: u64,
    pub name: Seq<u8>,
}

pub open spec fn decode_origin(s: Seq<u8>) -> Decoded<Origin> {
    decode_u64(s).chain(
        |commit_lsn: u64, s: Seq<u8>|
            decode_cstr(s).chain(
                |name: Seq<u8>, s: Seq<u8>| Decoded::Value(Origin { commit_lsn, name }, s),
            ),
    )
}

pub open spec fn put_origin(body: Origin, rest: Seq<u8>) -> Seq<u8> {
    put_u64(body.commit_lsn, put_cstr(body.name, rest))
}

pub open spec fn valid_origin(body: Origin) -> bool {
    is_cstr(body.name)
}

pub struct StreamStart {
    pub xid: u32,
    pub is_first_segment: u8,
}

pub open spec fn decode_stream_start(s: Seq<u8>) -> Decoded<StreamStart> {
    decode_u32(s).chain(
        |xid: u32, s: Seq<u8>|
            decode_u8(s).chain(
                |is_first_segment: u8, s: Seq<u8>|
                    Decoded::Value(StreamStart { xid, is_first_segment }, s),
            ),
    )
}

pub open spec fn put_stream_start(body: StreamStart, rest: Seq<u8>) -> Seq<u8> {
    put_u32(body.xid, put_u8(body.is_first_segment, rest))
}

pub struct StreamCommit {
    pub xid: u32,
    pub flags: i8,
    pub commit_lsn: u64,
    pub end_lsn: u64,
    pub timestamp: i64,
}

pub open spec fn decode_stream_commit(s: Seq<u8>) -> Decoded<StreamCommit> {
    decode_u32(s).chain(
        |xid: u32, s: Seq<u8>|
            decode_commit(s).chain(
                |commit: Commit, s: Seq<u8>|
                    Decoded::Value(
                        StreamCommit {
                            xid,
                            flags: commit.flags,
                            commit_lsn: commit.commit_lsn,
                            end_lsn: commit.end_lsn,
                            timestamp: commit.timestamp,
                        },
                        s,
                    ),
            ),
    )
}

pub open spec fn put_stream_commit(body: StreamCommit, rest: Seq<u8>) -> Seq<u8> {
    put_u32(
        body.xid,
        put_i8(
            body.flags,
            put_u64(body.commit_lsn, put_u64(body.end_lsn, put_i64(body.timestamp, rest))),
        ),
    )
}

pub struct StreamAbort {
    pub xid: u32,
    pub subxid: u32,
}

pub open spec fn decode_stream_abort(s: Seq<u8>) -> Decoded<StreamAbort> {
    decode_u32(s).chain(
        |xid: u32, s: Seq<u8>|
            decode_u32(s).chain(
                |subxid: u32, s: Seq<u8>| Decoded::Value(StreamAbort { xid, subxid }, s),
            ),
    )
}

pub open spec fn put_stream_abort(body: StreamAbort, rest: Seq<u8>) -> Seq<u8> {
    put_u32(body.xid, put_u32(body.subxid, rest))
}

// ---- Logical replication messages ----

pub enum Logical {
    Begin(Begin),
    Commit(Commit),
    Origin(Origin),
    Relation(Relation),
    Type(TypeInfo),
    Insert(Insert),
    Update(Update),
    Delete(Delete),
    Truncate(Truncate),
    StreamStart(StreamStart),
    StreamStop,
    StreamCommit(StreamCommit),
    StreamAbort(StreamAbort),
}

/// Whether messages about streamed transactions are known.
pub open spec fn knows_streams(protocol_version: u8) -> bool {
    protocol_version >= 2
}

/// What a tag announces, read from the bytes behind the tag.
pub open spec fn decode_body(
    protocol_version: u8,
    streamed: bool,
    tag: u8,
    s: Seq<u8>,
) -> Decoded<Logical> {
    if tag == BEGIN_TAG {
        decode_begin(s).chain(|body: Begin, s: Seq<u8>| Decoded::Value(Logical::Begin(body), s))
    } else if tag == COMMIT_TAG {
        decode_commit(s).chain(|body: Commit, s: Seq<u8>| Decoded::Value(Logical::Commit(body), s))
    } else if tag == ORIGIN_TAG {
        decode_origin(s).chain(|body: Origin, s: Seq<u8>| Decoded::Value(Logical::Origin(body), s))
    } else if tag == RELATION_TAG {
        decode_relation(streamed, s).chain(
            |body: Relation, s: Seq<u8>| Decoded::Value(Logical::Relation(body), s),
        )
    } else if tag == TYPE_TAG {
        decode_type(streamed, s).chain(
            |body: TypeInfo, s: Seq<u8>| Decoded::Value(Logical::Type(body), s),
        )
    } else if tag == INSERT_TAG {
        decode_insert(streamed, s).chain(
            |body: Insert, s: Seq<u8>| Decoded::Value(Logical::Insert(body), s),
        )
    } else if tag == UPDATE_TAG {
        decode_update(streamed, s).chain(
            |body: Update, s: Seq<u8>| Decoded::Value(Logical::Update(body), s),
        )
    } else if tag == DELETE_TAG {
        decode_delete(streamed, s).chain(
            |body: Delete, s: Seq<u8>| Decoded::Value(Logical::Delete(body), s),
        )
    } else if tag == TRUNCATE_TAG {
        decode_truncate(streamed, s).chain(
            |body: Truncate, s: Seq<u8>| Decoded::Value(Logical::Truncate(body), s),
        )
    } else if tag == STREAM_START_TAG && knows_streams(protocol_version) {
        decode_stream_start(s).chain(
            |body: StreamStart, s: Seq<u8>| Decoded::Value(Logical::StreamStart(body), s),
        )
    } else if tag == STREAM_STOP_TAG && knows_streams(protocol_version) {
        Decoded::Value(Logical::StreamStop, s)
    } else if tag == STREAM_COMMIT_TAG && knows_streams(protocol_version) {
        decode_stream_commit(s).chain(
            |body: StreamCommit, s: Seq<u8>| Decoded::Value(Logical::StreamCommit(body), s),
        )
    } else if tag == STREAM_ABORT_TAG && knows_streams(protocol_version) {
        decode_stream_abort(s).chain(
            |body: StreamAbort, s: Seq<u8>| Decoded::Value(Logical::StreamAbort(body), s),
        )
    } else {
        rejected(ParseError::UnknownMessageTag(tag), s)
    }
}

/// A logical replication message is a tag and what the tag announces.
pub open spec fn decode_logical(
    protocol_version: u8,
    streamed: bool,
    s: Seq<u8>,
) -> Decoded<Logical> {
    decode_u8(s).chain(|tag: u8, s: Seq<u8>| decode_body(protocol_version, streamed, tag, s))
}

/// Whether a streamed transaction is open after a message that starts with the
/// first byte of `s`, given whether one is open before. Only the tag counts: a
/// message that is cut short behind its tag has the same effect.
pub open spec fn streamed_after(protocol_version: u8, streamed: bool, s: Seq<u8>) -> bool {
    if s.len() == 0 || !knows_streams(protocol_version) {
        streamed
    } else if s[0] == STREAM_START_TAG {
        true
    } else if s[0] == STREAM_STOP_TAG || s[0] == STREAM_COMMIT_TAG || s[0] == STREAM_ABORT_TAG {
        false
    } else {
        streamed
    }
}

pub open spec fn put_logical(message: Logical, rest: Seq<u8>) -> Seq<u8> {
    match message {
        Logical::Begin(body) => put_u8(BEGIN_TAG, put_begin(body, rest)),
        Logical::Commit(body) => put_u8(COMMIT_TAG, put_commit(body, rest)),
        Logical::Origin(body) => put_u8(ORIGIN_TAG, put_origin(body, rest)),
        Logical::Relation(body) => put_u8(RELATION_TAG, put_relation(body, rest)),
        Logical::Type(body) => put_u8(TYPE_TAG, put_type(body, rest)),
        Logical::Insert(body) => put_u8(INSERT_TAG, put_insert(body, rest)),
        Logical::Update(body) => put_u8(UPDATE_TAG, put_update(body, rest)),
        Logical::Delete(body) => put_u8(DELETE_TAG, put_delete(body, rest)),
        Logical::Truncate(body) => put_u8(TRUNCATE_TAG, put_truncate(body, rest)),
        Logical::StreamStart(body) => put_u8(STREAM_START_TAG, put_stream_start(body, rest)),
        Logical::StreamStop => put_u8(STREAM_STOP_TAG, rest),
        Logical::StreamCommit(body) => put_u8(STREAM_COMMIT_TAG, put_stream_commit(body, rest)),
        Logical::StreamAbort(body) => put_u8(STREAM_ABORT_TAG, put_stream_abort(body, rest)),
    }
}

/// Which messages there are: those that the wire format can hold, for a
/// protocol version and within or outside a streamed transaction.
pub open spec fn valid_logical(protocol_version: u8, streamed: bool, message: Logical) -> bool {
    match message {
        Logical::Begin(_) => true,
        Logical::Commit(_) => true,
        Logical::Origin(body) => valid_origin(body),
        Logical::Relation(body) => valid_relation(streamed, body),
        Logical::Type(body) => valid_type(streamed, body),
        Logical::Insert(body) => valid_insert(streamed, body),
        Logical::Update(body) => valid_update(streamed, body),
        Logical::Delete(body) => valid_delete(streamed, body),
        Logical::Truncate(body) => valid_truncate(streamed, body),
        Logical::StreamStart(_) => knows_streams(protocol_version),
        Logical::StreamStop => knows_streams(protocol_version),
        Logical::StreamCommit(_) => knows_streams(protocol_version),
        Logical::StreamAbort(_) => knows_streams(protocol_version),
    }
}

} // verus!

//! Facts about tuples, columns and whole messages: each is read back, is what was
//! put, and is not changed by bytes behind it.

use crate::model::{
    column_condition, column_decoder, column_encoder, decode_begin, decode_body, decode_column,
    decode_columns, decode_commit, decode_delete, decode_insert, decode_new_row, decode_origin,
    decode_relation, decode_replica_identity, decode_row, decode_stream_abort, decode_stream_commit,
    decode_stream_start, decode_truncate, decode_tuple_value, decode_type, decode_update,
    decode_xid, put_begin, put_columns, put_commit, put_delete, put_insert, put_logical, put_origin,
    put_relation, put_row, put_stream_abort, put_stream_commit, put_stream_start, put_truncate,
    put_tuple_value, put_type, put_update, rel_id_decoder, rel_id_encoder, tuple_value_condition,
    tuple_value_decoder, tuple_value_encoder, valid_column, valid_delete, valid_insert,
    valid_logical, valid_origin, valid_relation, valid_row, valid_truncate, valid_tuple_value,
    valid_type, valid_update, Begin, ColumnInfo, Commit, Delete, Insert, Logical, Origin, Relation,
    Row, StreamAbort, StreamCommit, StreamStart, Truncate, TupleValue, TypeInfo, Update,
};
use crate::tags::{
    BEGIN_TAG, COMMIT_TAG, DELETE_TAG, INSERT_TAG, ORIGIN_TAG, RELATION_TAG, STREAM_ABORT_TAG,
    STREAM_COMMIT_TAG, STREAM_START_TAG, TRUNCATE_TAG, TUPLE_NEW_TAG, TYPE_TAG, UPDATE_TAG,
};
use crate::wire::{
    decode_cstr, decode_i16, decode_i32, decode_i8, decode_list, decode_u32, decode_u8, put_list,
    put_u8, Decoded,
};
use crate::wire_lemmas::{
    group_extends, group_is_put, group_reads_back, lemma_list_extends, lemma_list_is_put,
    lemma_list_reads_back, lemma_u32_extends, lemma_u32_is_put, lemma_u32_reads_back,
};
use vstd::prelude::*;

verus! {

// ---- Parts of messages ----

pub proof fn lemma_tuple_value_reads_back(value: TupleValue, rest: Seq<u8>)
    requires
        valid_tuple_value(value),
    ensures
        decode_tuple_value(put_tuple_value(value, rest)) == Decoded::Value(value, rest),
{
    broadcast use group_reads_back;

    if let TupleValue::Text(text) = value {
        assert((text.len() as i32) as int == text.len());
    }
}

pub proof fn lemma_tuple_value_is_put(s: Seq<u8>)
    ensures
        decode_tuple_value(s) matches Decoded::Value(value, rest) ==> {
            &&& s == put_tuple_value(value, rest)
            &&& valid_tuple_value(value)
        },
{
    broadcast use group_is_put;

}

pub proof fn lemma_tuple_value_extends(s: Seq<u8>, more: Seq<u8>)
    ensures
        !decode_tuple_value(s).is_cut_short() ==> decode_tuple_value(s + more)
            == decode_tuple_value(s).followed_by(more),
{
    broadcast use group_extends;

}

pub proof fn lemma_row_reads_back(row: Row, rest: Seq<u8>)
    requires
        valid_row(row),
    ensures
        decode_row(put_row(row, rest)) == Decoded::Value(row, rest),
{
    broadcast use group_reads_back;

    let decode = tuple_value_decoder();
    let put = tuple_value_encoder();
    assert forall|i: int, s: Seq<u8>| 0 <= i < row.len() implies #[trigger] decode(
        put(row[i], s),
    ) == Decoded::Value(row[i], s) by {
        lemma_tuple_value_reads_back(row[i], s);
    }
    lemma_list_reads_back(decode, put, row, rest);
    assert((row.len() as i16) as int == row.len());
}

pub proof fn lemma_row_is_put(s: Seq<u8>)
    ensures
        decode_row(s) matches Decoded::Value(row, rest) ==> s == put_row(row, rest) && valid_row(
            row,
        ),
{
    broadcast use group_is_put;

    let decode = tuple_value_decoder();
    let put = tuple_value_encoder();
    let valid = tuple_value_condition();
    assert forall|s: Seq<u8>| (#[trigger] decode(s) matches Decoded::Value(v, rest) ==> s == put(
        v,
        rest,
    ) && valid(v)) by {
        lemma_tuple_value_is_put(s);
    }
    if let Decoded::Value(count, entries) = decode_i16(s) {
        lemma_list_is_put(decode, put, valid, count as int, entries);
        if let Decoded::Value(row, rest) = decode_list(decode, count as int, entries) {
            assert forall|i: int| 0 <= i < row.len() implies #[trigger] valid_tuple_value(
                row[i],
            ) by {
                assert(valid(row[i]));
            }
        }
    }
}

pub proof fn lemma_row_extends(s: Seq<u8>, more: Seq<u8>)
    ensures
        !decode_row(s).is_cut_short() ==> decode_row(s + more) == decode_row(s).followed_by(more),
{
    broadcast use group_extends;

    let decode = tuple_value_decoder();
    assert forall|s: Seq<u8>, more: Seq<u8>| !decode(s).is_cut_short() implies #[trigger] decode(
        s + more,
    ) == decode(s).followed_by(more) by {
        lemma_tuple_value_extends(s, more);
    }
    if let Decoded::Value(count, entries) = decode_i16(s) {
        lemma_list_extends(decode, count as int, entries, more);
    }
}

pub proof fn lemma_column_extends(s: Seq<u8>, more: Seq<u8>)
    ensures
        !decode_column(s).is_cut_short() ==> decode_column(s + more)
            == decode_column(s).followed_by(more),
{
    broadcast use group_extends;

}

pub proof fn lemma_columns_read_back(columns: Seq<ColumnInfo>, rest: Seq<u8>)
    requires
        columns.len() <= i16::MAX,
        forall|i: int| 0 <= i < columns.len() ==> #[trigger] valid_column(columns[i]),
    ensures
        decode_columns(put_columns(columns, rest)) == Decoded::Value(columns, rest),
{
    broadcast use group_reads_back;

    let decode = column_decoder();
    let put = column_encoder();
    assert forall|i: int, s: Seq<u8>| 0 <= i < columns.len() implies #[trigger] decode(
        put(columns[i], s),
    ) == Decoded::Value(columns[i], s) by {
        assert(valid_column(columns[i]));
    }
    lemma_list_reads_back(decode, put, columns, rest);
    assert((columns.len() as i16) as int == columns.len());
}

pub proof fn lemma_columns_are_put(s: Seq<u8>)
    ensures
        decode_columns(s) matches Decoded::Value(columns, rest) ==> {
            &&& s == put_columns(columns, rest)
            &&& columns.len() <= i16::MAX
            &&& forall|i: int| 0 <= i < columns.len() ==> #[trigger] valid_column(columns[i])
        },
{
    broadcast use group_is_put;

    let decode = column_decoder();
    let put = column_encoder();
    let valid = column_condition();
    assert forall|s: Seq<u8>| (#[trigger] decode(s) matches Decoded::Value(v, rest) ==> s == put(
        v,
        rest,
    ) && valid(v)) by {
        assert(decode(s) == decode_column(s));
    }
    if let Decoded::Value(count, entries) = decode_i16(s) {
        lemma_list_is_put(decode, put, valid, count as int, entries);
        if let Decoded::Value(columns, rest) = decode_list(decode, count as int, entries) {
            assert forall|i: int| 0 <= i < columns.len() implies #[trigger] valid_column(
                columns[i],
            ) by {
                assert(valid(columns[i]));
            }
        }
    }
}

pub proof fn lemma_columns_extend(s: Seq<u8>, more: Seq<u8>)
    ensures
        !decode_columns(s).is_cut_short() ==> decode_columns(s + more)
            == decode_columns(s).followed_by(more),
{
    broadcast use group_extends;

    let decode = column_decoder();
    assert forall|s: Seq<u8>, more: Seq<u8>| !decode(s).is_cut_short() implies #[trigger] decode(
        s + more,
    ) == decode(s).followed_by(more) by {
        lemma_column_extends(s, more);
    }
    if let Decoded::Value(count, entries) = decode_i16(s) {
        lemma_list_extends(decode, count as int, entries, more);
    }
}

pub proof fn lemma_rel_ids_read_back(rel_ids: Seq<u32>, rest: Seq<u8>)
    ensures
        decode_list(
            rel_id_decoder(),
            rel_ids.len() as int,
            put_list(rel_id_encoder(), rel_ids, rest),
        ) == Decoded::Value(rel_ids, rest),
{
    let decode = rel_id_decoder();
    let put = rel_id_encoder();
    assert forall|i: int, s: Seq<u8>| 0 <= i < rel_ids.len() implies #[trigger] decode(
        put(rel_ids[i], s),
    ) == Decoded::Value(rel_ids[i], s) by {
        lemma_u32_reads_back(rel_ids[i], s);
    }
    lemma_list_reads_back(decode, put, rel_ids, rest);
}

pub proof fn lemma_rel_ids_are_put(count: int, s: Seq<u8>)
    ensures
        decode_list(rel_id_decoder(), count, s) matches Decoded::Value(rel_ids, rest) ==> {
            &&& s == put_list(rel_id_encoder(), rel_ids, rest)
            &&& rel_ids.len() == count
        },
{
    let decode = rel_id_decoder();
    let put = rel_id_encoder();
    let valid = |rel_id: u32| true;
    assert forall|s: Seq<u8>| (#[trigger] decode(s) matches Decoded::Value(v, rest) ==> s == put(
        v,
        rest,
    ) && valid(v)) by {
        lemma_u32_is_put(s);
    }
    lemma_list_is_put(decode, put, valid, count, s);
}

pub proof fn lemma_rel_ids_extend(count: int, s: Seq<u8>, more: Seq<u8>)
    ensures
        !decode_list(rel_id_decoder(), count, s).is_cut_short() ==> decode_list(
            rel_id_decoder(),
            count,
            s + more,
        ) == decode_list(rel_id_decoder(), count, s).followed_by(more),
{
    let decode = rel_id_decoder();
    assert forall|s: Seq<u8>, more: Seq<u8>| !decode(s).is_cut_short() implies #[trigger] decode(
        s + more,
    ) == decode(s).followed_by(more) by {
        lemma_u32_extends(s, more);
    }
    lemma_list_extends(decode, count, s, more);
}

// ---- Messages with lists ----

pub proof fn lemma_relation_reads_back(streamed: bool, body: Relation, rest: Seq<u8>)
    requires
        valid_relation(streamed, body),
    ensures
        decode_relation(streamed, put_relation(body, rest)) == Decoded::Value(body, rest),
{
    broadcast use group_reads_back;

    lemma_columns_read_back(body.columns, rest);
}

pub proof fn lemma_relation_is_put(streamed: bool, s: Seq<u8>)
    ensures
        decode_relation(streamed, s) matches Decoded::Value(body, rest) ==> {
            &&& s == put_relation(body, rest)
            &&& valid_relation(streamed, body)
        },
{
    broadcast use group_is_put;

    if let Decoded::Value(_, s) = decode_xid(streamed, s) {
        if let Decoded::Value(_, s) = decode_u32(s) {
            if let Decoded::Value(_, s) = decode_cstr(s) {
                if let Decoded::Value(_, s) = decode_cstr(s) {
                    if let Decoded::Value(_, s) = decode_replica_identity(s) {
                        lemma_columns_are_put(s);
                    }
                }
            }
        }
    }
}

pub proof fn lemma_relation_extends(streamed: bool, s: Seq<u8>, more: Seq<u8>)
    ensures
        !decode_relation(streamed, s).is_cut_short() ==> decode_relation(streamed, s + more)
            == decode_relation(streamed, s).followed_by(more),
{
    broadcast use group_extends;

    if let Decoded::Value(_, s) = decode_xid(streamed, s) {
        if let Decoded::Value(_, s) = decode_u32(s) {
            if let Decoded::Value(_, s) = decode_cstr(s) {
                if let Decoded::Value(_, s) = decode_cstr(s) {
                    if let Decoded::Value(_, s) = decode_replica_identity(s) {
                        lemma_columns_extend(s, more);
                    }
                }
            }
        }
    }
}

pub proof fn lemma_insert_reads_back(streamed: bool, body: Insert, rest: Seq<u8>)
    requires
        valid_insert(streamed, body),
    ensures
        decode_insert(streamed, put_insert(body, rest)) == Decoded::Value(body, rest),
{
    broadcast use group_reads_back;

    lemma_row_reads_back(body.tuple, rest);
}

pub proof fn lemma_new_row_is_put(s: Seq<u8>)
    ensures
        decode_new_row(s) matches Decoded::Value(row, rest) ==> {
            &&& s == put_u8(TUPLE_NEW_TAG, put_row(row, rest))
            &&& valid_row(row)
        },
{
    broadcast use group_is_put;

    if let Decoded::Value(_, s) = decode_u8(s) {
        lemma_row_is_put(s);
    }
}

pub proof fn lemma_new_row_extends(s: Seq<u8>, more: Seq<u8>)
    ensures
        !decode_new_row(s).is_cut_short() ==> decode_new_row(s + more)
            == decode_new_row(s).followed_by(more),
{
    broadcast use group_extends;

    if let Decoded::Value(_, s) = decode_u8(s) {
        lemma_row_extends(s, more);
    }
}

pub proof fn lemma_insert_is_put(streamed: bool, s: Seq<u8>)
    ensures
        decode_insert(streamed, s) matches Decoded::Value(body, rest) ==> {
            &&& s == put_insert(body, rest)
            &&& valid_insert(streamed, body)
        },
{
    broadcast use group_is_put;

    if let Decoded::Value(_, s) = decode_xid(streamed, s) {
        if let Decoded::Value(_, s) = decode_u32(s) {
            lemma_new_row_is_put(s);
        }
    }
}

pub proof fn lemma_insert_extends(streamed: bool, s: Seq<u8>, more: Seq<u8>)
    ensures
        !decode_insert(streamed, s).is_cut_short() ==> decode_insert(streamed, s + more)
            == decode_insert(streamed, s).followed_by(more),
{
    broadcast use group_extends;

    if let Decoded::Value(_, s) = decode_xid(streamed, s) {
        if let Decoded::Value(_, s) = decode_u32(s) {
            lemma_new_row_extends(s, more);
        }
    }
}

pub proof fn lemma_update_reads_back(streamed: bool, body: Update, rest: Seq<u8>)
    requires
        valid_update(streamed, body),
    ensures
        decode_update(streamed, put_update(body, rest)) == Decoded::Value(body, rest),
{
    broadcast use group_reads_back;

    lemma_row_reads_back(body.new_tuple, rest);
    let behind = put_u8(TUPLE_NEW_TAG, put_row(body.new_tuple, rest));
    if let Some(row) = body.old_tuple {
        lemma_row_reads_back(row, behind);
    }
    if let Some(row) = body.key_tuple {
        lemma_row_reads_back(row, behind);
    }
}

pub proof fn lemma_update_is_put(streamed: bool, s: Seq<u8>)
    ensures
        decode_update(streamed, s) matches Decoded::Value(body, rest) ==> {
            &&& s == put_update(body, rest)
            &&& valid_update(streamed, body)
        },
{
    broadcast use group_is_put;

    if let Decoded::Value(_, s) = decode_xid(streamed, s) {
        if let Decoded::Value(_, s) = decode_u32(s) {
            if let Decoded::Value(_, s) = decode_u8(s) {
                lemma_row_is_put(s);
                if let Decoded::Value(_, s) = decode_row(s) {
                    lemma_new_row_is_put(s);
                }
            }
        }
    }
}

pub proof fn lemma_update_extends(streamed: bool, s: Seq<u8>, more: Seq<u8>)
    ensures
        !decode_update(streamed, s).is_cut_short() ==> decode_update(streamed, s + more)
            == decode_update(streamed, s).followed_by(more),
{
    broadcast use group_extends;

    if let Decoded::Value(_, s) = decode_xid(streamed, s) {
        if let Decoded::Value(_, s) = decode_u32(s) {
            if let Decoded::Value(_, s) = decode_u8(s) {
                lemma_row_extends(s, more);
                if let Decoded::Value(_, s) = decode_row(s) {
                    lemma_new_row_extends(s, more);
                }
            }
        }
    }
}

pub proof fn lemma_delete_reads_back(streamed: bool, body: Delete, rest: Seq<u8>)
    requires
        valid_delete(streamed, body),
    ensures
        decode_delete(streamed, put_delete(body, rest)) == Decoded::Value(body, rest),
{
    broadcast use group_reads_back;

    if let Some(row) = body.old_tuple {
        lemma_row_reads_back(row, rest);
    }
    if let Some(row) = body.key_tuple {
        lemma_row_reads_back(row, rest);
    }
}

pub proof fn lemma_delete_is_put(streamed: bool, s: Seq<u8>)
    ensures
        decode_delete(streamed, s) matches Decoded::Value(body, rest) ==> {
            &&& s == put_delete(body, rest)
            &&& valid_delete(streamed, body)
        },
{
    broadcast use group_is_put;

    if let Decoded::Value(_, s) = decode_xid(streamed, s) {
        if let Decoded::Value(_, s) = decode_u32(s) {
            if let Decoded::Value(_, s) = decode_u8(s) {
                lemma_row_is_put(s);
            }
        }
    }
}

pub proof fn lemma_delete_extends(streamed: bool, s: Seq<u8>, more: Seq<u8>)
    ensures
        !decode_delete(streamed, s).is_cut_short() ==> decode_delete(streamed, s + more)
            == decode_delete(streamed, s).followed_by(more),
{
    broadcast use group_extends;

    if let Decoded::Value(_, s) = decode_xid(streamed, s) {
        if let Decoded::Value(_, s) = decode_u32(s) {
            if let Decoded::Value(_, s) = decode_u8(s) {
                lemma_row_extends(s, more);
            }
        }
    }
}

pub proof fn lemma_truncate_reads_back(streamed: bool, body: Truncate, rest: Seq<u8>)
    requires
        valid_truncate(streamed, body),
    ensures
        decode_truncate(streamed, put_truncate(body, rest)) == Decoded::Value(body, rest),
{
    broadcast use group_reads_back;

    lemma_rel_ids_read_back(body.rel_ids, rest);
    assert((body.rel_ids.len() as i32) as int == body.rel_ids.len());
}

pub proof fn lemma_truncate_is_put(streamed: bool, s: Seq<u8>)
    ensures
        decode_truncate(streamed, s) matches Decoded::Value(body, rest) ==> {
            &&& s == put_truncate(body, rest)
            &&& valid_truncate(streamed, body)
        },
{
    broadcast use group_is_put;

    if let Decoded::Value(_, s) = decode_xid(streamed, s) {
        if let Decoded::Value(count, s) = decode_i32(s) {
            if let Decoded::Value(_, s) = decode_i8(s) {
                lemma_rel_ids_are_put(count as int, s);
            }
        }
    }
}

pub proof fn lemma_truncate_extends(streamed: bool, s: Seq<u8>, more: Seq<u8>)
    ensures
        !decode_truncate(streamed, s).is_cut_short() ==> decode_truncate(streamed, s + more)
            == decode_truncate(streamed, s).followed_by(more),
{
    broadcast use group_extends;

    if let Decoded::Value(_, s) = decode_xid(streamed, s) {
        if let Decoded::Value(count, s) = decode_i32(s) {
            if let Decoded::Value(_, s) = decode_i8(s) {
                lemma_rel_ids_extend(count as int, s, more);
            }
        }
    }
}

// ---- Messages without lists ----

pub proof fn lemma_begin_reads_back(body: Begin, rest: Seq<u8>)
    ensures
        decode_begin(put_begin(body, rest)) == Decoded::Value(body, rest),
{
    broadcast use group_reads_back;

}

pub proof fn lemma_begin_is_put(s: Seq<u8>)
    ensures
        decode_begin(s) matches Decoded::Value(body, rest) ==> s == put_begin(body, rest),
{
    broadcast use group_is_put;

}

pub proof fn lemma_begin_extends(s: Seq<u8>, more: Seq<u8>)
    ensures
        !decode_begin(s).is_cut_short() ==> decode_begin(s + more)
            == decode_begin(s).followed_by(more),
{
    broadcast use group_extends;

}

pub proof fn lemma_commit_reads_back(body: Commit, rest: Seq<u8>)
    ensures
        decode_commit(put_commit(body, rest)) == Decoded::Value(body, rest),
{
    broadcast use group_reads_back;

}

pub proof fn lemma_commit_is_put(s: Seq<u8>)
    ensures
        decode_commit(s) matches Decoded::Value(body, rest) ==> s == put_commit(body, rest),
{
    broadcast use group_is_put;

}

pub proof fn lemma_commit_extends(s: Seq<u8>, more: Seq<u8>)
    ensures
        !decode_commit(s).is_cut_short() ==> decode_commit(s + more)
            == decode_commit(s).followed_by(more),
{
    broadcast use group_extends;

}

pub proof fn lemma_origin_reads_back(body: Origin, rest: Seq<u8>)
    requires
        valid_origin(body),
    ensures
        decode_origin(put_origin(body, rest)) == Decoded::Value(body, rest),
{
    broadcast use group_reads_back;

}

pub proof fn lemma_origin_is_put(s: Seq<u8>)
    ensures
        decode_origin(s) matches Decoded::Value(body, rest) ==> {
            &&& s == put_origin(body, rest)
            &&& valid_origin(body)
        },
{
    broadcast use group_is_put;

}

pub proof fn lemma_origin_extends(s: Seq<u8>, more: Seq<u8>)
    ensures
        !decode_origin(s).is_cut_short() ==> decode_origin(s + more)
            == decode_origin(s).followed_by(more),
{
    broadcast use group_extends;

}

pub proof fn lemma_type_reads_back(streamed: bool, body: TypeInfo, rest: Seq<u8>)
    requires
        valid_type(streamed, body),
    ensures
        decode_type(streamed, put_type(body, rest)) == Decoded::Value(body, rest),
{
    broadcast use group_reads_back;

}

pub proof fn lemma_type_is_put(streamed: bool, s: Seq<u8>)
    ensures
        decode_type(streamed, s) matches Decoded::Value(body, rest) ==> {
            &&& s == put_type(body, rest)
            &&& valid_type(streamed, body)
        },
{
    broadcast use group_is_put;

}

pub proof fn lemma_type_extends(streamed: bool, s: Seq<u8>, more: Seq<u8>)
    ensures
        !decode_type(streamed, s).is_cut_short() ==> decode_type(streamed, s + more)
            == decode_type(streamed, s).followed_by(more),
{
    broadcast use group_extends;

}

pub proof fn lemma_stream_start_reads_back(body: StreamStart, rest: Seq<u8>)
    ensures
        decode_stream_start(put_stream_start(body, rest)) == Decoded::Value(body, rest),
{
    broadcast use group_reads_back;

}

pub proof fn lemma_stream_start_is_put(s: Seq<u8>)
    ensures
        decode_stream_start(s) matches Decoded::Value(body, rest) ==> s == put_stream_start(
            body,
            rest,
        ),
{
    broadcast use group_is_put;

}

pub proof fn lemma_stream_start_extends(s: Seq<u8>, more: Seq<u8>)
    ensures
        !decode_stream_start(s).is_cut_short() ==> decode_stream_start(s + more)
            == decode_stream_start(s).followed_by(more),
{
    broadcast use group_extends;

}

pub proof fn lemma_stream_commit_reads_back(body: StreamCommit, rest: Seq<u8>)
    ensures
        decode_stream_commit(put_stream_commit(body, rest)) == Decoded::Value(body, rest),
{
    broadcast use group_reads_back;

}

pub proof fn lemma_stream_commit_is_put(s: Seq<u8>)
    ensures
        decode_stream_commit(s) matches Decoded::Value(body, rest) ==> s == put_stream_commit(
            body,
            rest,
        ),
{
    broadcast use group_is_put;

}

pub proof fn lemma_stream_commit_extends(s: Seq<u8>, more: Seq<u8>)
    ensures
        !decode_stream_commit(s).is_cut_short() ==> decode_stream_commit(s + more)
            == decode_stream_commit(s).followed_by(more),
{
    broadcast use group_extends;

}

pub proof fn lemma_stream_abort_reads_back(body: StreamAbort, rest: Seq<u8>)
    ensures
        decode_stream_abort(put_stream_abort(body, rest)) == Decoded::Value(body, rest),
{
    broadcast use group_reads_back;

}

pub proof fn lemma_stream_abort_is_put(s: Seq<u8>)
    ensures
        decode_stream_abort(s) matches Decoded::Value(body, rest) ==> s == put_stream_abort(
            body,
            rest,
        ),
{
    broadcast use group_is_put;

}

pub proof fn lemma_stream_abort_extends(s: Seq<u8>, more: Seq<u8>)
    ensures
        !decode_stream_abort(s).is_cut_short() ==> decode_stream_abort(s + more)
            == decode_stream_abort(s).followed_by(more),
{
    broadcast use group_extends;

}

// ---- What a tag announces ----

/// What is read behind a tag is what was put there, and the tag is its own.
#[verifier::rlimit(40)]
pub proof fn lemma_body_is_put(protocol_version: u8, streamed: bool, tag: u8, s: Seq<u8>)
    ensures
        decode_body(protocol_version, streamed, tag, s) matches Decoded::Value(message, rest) ==> {
            &&& put_u8(tag, s) == put_logical(message, rest)
            &&& valid_logical(protocol_version, streamed, message)
        },
{
    if tag == BEGIN_TAG {
        lemma_begin_is_put(s);
        if let Decoded::Value(body, rest) = decode_begin(s) {
            assert(put_logical(Logical::Begin(body), rest) == put_u8(
                BEGIN_TAG,
                put_begin(body, rest),
            ));
        }
    } else if tag == COMMIT_TAG {
        lemma_commit_is_put(s);
        if let Decoded::Value(body, rest) = decode_commit(s) {
            assert(put_logical(Logical::Commit(body), rest) == put_u8(
                COMMIT_TAG,
                put_commit(body, rest),
            ));
        }
    } else if tag == ORIGIN_TAG {
        lemma_origin_is_put(s);
        if let Decoded::Value(body, rest) = decode_origin(s) {
            assert(put_logical(Logical::Origin(body), rest) == put_u8(
                ORIGIN_TAG,
                put_origin(body, rest),
            ));
        }
    } else if tag == RELATION_TAG {
        lemma_relation_is_put(streamed, s);
        if let Decoded::Value(body, rest) = decode_relation(streamed, s) {
            assert(put_logical(Logical::Relation(body), rest) == put_u8(
                RELATION_TAG,
                put_relation(body, rest),
            ));
        }
    } else if tag == TYPE_TAG {
        lemma_type_is_put(streamed, s);
        if let Decoded::Value(body, rest) = decode_type(streamed, s) {
            assert(put_logical(Logical::Type(body), rest) == put_u8(
                TYPE_TAG,
                put_type(body, rest),
            ));
        }
    } else if tag == INSERT_TAG {
        lemma_insert_is_put(streamed, s);
        if let Decoded::Value(body, rest) = decode_insert(streamed, s) {
            assert(put_logical(Logical::Insert(body), rest) == put_u8(
                INSERT_TAG,
                put_insert(body, rest),
            ));
        }
    } else if tag == UPDATE_TAG {
        lemma_update_is_put(streamed, s);
        if let Decoded::Value(body, rest) = decode_update(streamed, s) {
            assert(put_logical(Logical::Update(body), rest) == put_u8(
                UPDATE_TAG,
                put_update(body, rest),
            ));
        }
    } else if tag == DELETE_TAG {
        lemma_delete_is_put(streamed, s);
        if let Decoded::Value(body, rest) = decode_delete(streamed, s) {
            assert(put_logical(Logical::Delete(body), rest) == put_u8(
                DELETE_TAG,
                put_delete(body, rest),
            ));
        }
    } else if tag == TRUNCATE_TAG {
        lemma_truncate_is_put(streamed, s);
        if let Decoded::Value(body, rest) = decode_truncate(streamed, s) {
            assert(put_logical(Logical::Truncate(body), rest) == put_u8(
                TRUNCATE_TAG,
                put_truncate(body, rest),
            ));
        }
    } else if tag == STREAM_START_TAG {
        lemma_stream_start_is_put(s);
        if let Decoded::Value(body, rest) = decode_stream_start(s) {
            assert(put_logical(Logical::StreamStart(body), rest) == put_u8(
                STREAM_START_TAG,
                put_stream_start(body, rest),
            ));
        }
    } else if tag == STREAM_COMMIT_TAG {
        lemma_stream_commit_is_put(s);
        if let Decoded::Value(body, rest) = decode_stream_commit(s) {
            assert(put_logical(Logical::StreamCommit(body), rest) == put_u8(
                STREAM_COMMIT_TAG,
                put_stream_commit(body, rest),
            ));
        }
    } else if tag == STREAM_ABORT_TAG {
        lemma_stream_abort_is_put(s);
        if let Decoded::Value(body, rest) = decode_stream_abort(s) {
            assert(put_logical(Logical::StreamAbort(body), rest) == put_u8(
                STREAM_ABORT_TAG,
                put_stream_abort(body, rest),
            ));
        }
    }
}

#[verifier::rlimit(40)]
pub proof fn lemma_body_extends(
    protocol_version: u8,
    streamed: bool,
    tag: u8,
    s: Seq<u8>,
    more: Seq<u8>,
)
    ensures
        !decode_body(protocol_version, streamed, tag, s).is_cut_short() ==> decode_body(
            protocol_version,
            streamed,
            tag,
            s + more,
        ) == decode_body(protocol_version, streamed, tag, s).followed_by(more),
{
    if tag == BEGIN_TAG {
        lemma_begin_extends(s, more);
    } else if tag == COMMIT_TAG {
        lemma_commit_extends(s, more);
    } else if tag == ORIGIN_TAG {
        lemma_origin_extends(s, more);
    } else if tag == RELATION_TAG {
        lemma_relation_extends(streamed, s, more);
    } else if tag == TYPE_TAG {
        lemma_type_extends(streamed, s, more);
    } else if tag == INSERT_TAG {
        lemma_insert_extends(streamed, s, more);
    } else if tag == UPDATE_TAG {
        lemma_update_extends(streamed, s, more);
    } else if tag == DELETE_TAG {
        lemma_delete_extends(streamed, s, more);
    } else if tag == TRUNCATE_TAG {
        lemma_truncate_extends(streamed, s, more);
    } else if tag == STREAM_START_TAG {
        lemma_stream_start_extends(s, more);
    } else if tag == STREAM_COMMIT_TAG {
        lemma_stream_commit_extends(s, more);
    } else if tag == STREAM_ABORT_TAG {
        lemma_stream_abort_extends(s, more);
    }
}

/// Where bytes behind an input do not change its outcome, an input without `more`
/// at its end is cut short if less than `more` is left over with it.
pub proof fn lemma_cut_off<T>(whole: Decoded<T>, cut: Decoded<T>, more: Seq<u8>)
    requires
        !cut.is_cut_short() ==> whole == cut.followed_by(more),
        whole matches Decoded::Value(_, rest) && rest.len() < more.len(),
    ensures
        cut.is_cut_short(),
{
}

} // verus!

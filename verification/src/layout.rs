//! Where each part of a message stands in the input, byte by byte.
//!
//! These laws give the outcome for every input over the bytes themselves: which
//! bytes make up each field, and which inputs are refused with which error.

use crate::buffer::outcome;
use crate::error::{Failure, ParseError};
use crate::layout_lemmas::{
    lemma_cstr_at, lemma_i16_at, lemma_i32_at, lemma_i64_at, lemma_i8_at, lemma_list_from,
    lemma_no_cstr_at, lemma_u32_at, lemma_u64_at, lemma_u8_at, lemma_xid_at,
};
use crate::model::{
    column_decoder, decode_column, decode_columns, decode_logical, decode_replication, decode_row,
    decode_tuple_value, rel_id_decoder, streamed_after, tuple_value_decoder, ColumnInfo, Logical,
    Replication, Row, TupleValue,
};
use crate::wire::{be_value, decode_list, to_signed, Decoded};
use crate::wire_lemmas::{lemma_be_value_of_4, lemma_be_value_of_8, lemma_capacity};
use vstd::prelude::*;

verus! {

// ---- Numbers ----

/// In a number each byte counts 256 times as much as the one behind it.
pub proof fn law_numbers_are_big_endian(bytes: Seq<u8>, last: u8)
    ensures
        be_value(Seq::<u8>::empty()) == 0,
        be_value(bytes.push(last)) == 256 * be_value(bytes) + last,
{
    assert(bytes.push(last).drop_last() == bytes);
}

/// A number of eight bytes, written out.
pub proof fn law_eight_bytes_are_a_number(b: Seq<u8>)
    requires
        b.len() == 8,
    ensures
        be_value(b) == b[7] + 0x100 * (b[6] + 0x100 * (b[5] + 0x100 * (b[4] + 0x100 * (b[3] + 0x100
            * (b[2] + 0x100 * (b[1] + 0x100 * b[0])))))),
{
    lemma_be_value_of_8(b);
    assert(b.take(8) == b);
}

/// A number of four bytes, written out.
pub proof fn law_four_bytes_are_a_number(b: Seq<u8>)
    requires
        b.len() == 4,
    ensures
        be_value(b) == b[3] + 0x100 * (b[2] + 0x100 * (b[1] + 0x100 * b[0])),
{
    lemma_be_value_of_4(b);
    assert(b.take(4) == b);
}

/// A signed number is the unsigned one where that is in the lower half of its
/// range, and less by the size of the range where it is in the upper half.
pub proof fn law_signs_are_twos_complement(n: nat)
    ensures
        n < 0x80 ==> to_signed(n, 1) == n,
        0x80 <= n < 0x100 ==> to_signed(n, 1) == n - 0x100,
        n < 0x8000 ==> to_signed(n, 2) == n,
        0x8000 <= n < 0x1_0000 ==> to_signed(n, 2) == n - 0x1_0000,
        n < 0x8000_0000 ==> to_signed(n, 4) == n,
        0x8000_0000 <= n < 0x1_0000_0000 ==> to_signed(n, 4) == n - 0x1_0000_0000,
        n < 0x8000_0000_0000_0000 ==> to_signed(n, 8) == n,
        0x8000_0000_0000_0000 <= n < 0x1_0000_0000_0000_0000 ==> to_signed(n, 8) == n
            - 0x1_0000_0000_0000_0000,
{
    lemma_capacity();
}

// ---- Replication messages ----

/// A piece of the log is `w`, the start and the end of the log, the timestamp, and
/// all the bytes behind them as data.
pub proof fn law_xlog_data_layout(s: Seq<u8>)
    requires
        s.len() > 0,
        s[0] == 0x77,
    ensures
        s.len() >= 25 ==> {
            &&& decode_replication(s) matches Decoded::Value(Replication::XLogData(body), rest)
            &&& body.wal_start == be_value(s.subrange(1, 9))
            &&& body.wal_end == be_value(s.subrange(9, 17))
            &&& body.timestamp == to_signed(be_value(s.subrange(17, 25)), 8)
            &&& body.data == s.skip(25)
            &&& rest.len() == 0
        },
        s.len() < 25 ==> decode_replication(s) matches Decoded::Failed(
            Failure::Rejected(ParseError::UnexpectedEof),
            _,
        ),
{
    lemma_u64_at(s, 1);
    if s.len() >= 9 {
        lemma_u64_at(s, 9);
    }
    if s.len() >= 17 {
        lemma_i64_at(s, 17);
    }
}

/// A keepalive message is `k`, the end of the log, the timestamp, and the byte that
/// says whether a reply is asked for.
pub proof fn law_keep_alive_layout(s: Seq<u8>)
    requires
        s.len() > 0,
        s[0] == 0x6b,
    ensures
        s.len() >= 18 ==> {
            &&& decode_replication(s) matches Decoded::Value(
                Replication::PrimaryKeepAlive(body),
                rest,
            )
            &&& body.wal_end == be_value(s.subrange(1, 9))
            &&& body.timestamp == to_signed(be_value(s.subrange(9, 17)), 8)
            &&& body.reply == s[17]
            &&& rest == s.skip(18)
        },
        s.len() < 18 ==> decode_replication(s) matches Decoded::Failed(
            Failure::Rejected(ParseError::UnexpectedEof),
            _,
        ),
{
    lemma_u64_at(s, 1);
    if s.len() >= 9 {
        lemma_i64_at(s, 9);
    }
    if s.len() >= 17 {
        lemma_u8_at(s, 17);
    }
}

/// There is no replication message without a tag, and none with another tag.
pub proof fn law_replication_tags(s: Seq<u8>)
    ensures
        s.len() == 0 ==> decode_replication(s) matches Decoded::Failed(
            Failure::Rejected(ParseError::UnexpectedEof),
            _,
        ),
        s.len() > 0 && s[0] != 0x77 && s[0] != 0x6b ==> decode_replication(s) == Decoded::<
            Replication,
        >::Failed(Failure::Rejected(ParseError::UnknownMessageTag(s[0])), s.skip(1)),
{
}

// ---- Transactions ----

/// A begin message is `B`, the final LSN, the timestamp and the transaction ID.
pub proof fn law_begin_layout(protocol_version: u8, streamed: bool, s: Seq<u8>)
    requires
        s.len() > 0,
        s[0] == 0x42,
    ensures
        s.len() >= 21 ==> {
            &&& decode_logical(protocol_version, streamed, s) matches Decoded::Value(
                Logical::Begin(body),
                rest,
            )
            &&& body.final_lsn == be_value(s.subrange(1, 9))
            &&& body.timestamp == to_signed(be_value(s.subrange(9, 17)), 8)
            &&& body.xid == be_value(s.subrange(17, 21))
            &&& rest == s.skip(21)
        },
        s.len() < 21 ==> decode_logical(protocol_version, streamed, s) matches Decoded::Failed(
            Failure::Rejected(ParseError::UnexpectedEof),
            _,
        ),
{
    lemma_u64_at(s, 1);
    if s.len() >= 9 {
        lemma_i64_at(s, 9);
    }
    if s.len() >= 17 {
        lemma_u32_at(s, 17);
    }
}

/// A commit message is `C`, the flags, the LSN of the commit, the end LSN and the
/// timestamp.
pub proof fn law_commit_layout(protocol_version: u8, streamed: bool, s: Seq<u8>)
    requires
        s.len() > 0,
        s[0] == 0x43,
    ensures
        s.len() >= 26 ==> {
            &&& decode_logical(protocol_version, streamed, s) matches Decoded::Value(
                Logical::Commit(body),
                rest,
            )
            &&& body.flags == to_signed(be_value(s.subrange(1, 2)), 1)
            &&& body.commit_lsn == be_value(s.subrange(2, 10))
            &&& body.end_lsn == be_value(s.subrange(10, 18))
            &&& body.timestamp == to_signed(be_value(s.subrange(18, 26)), 8)
            &&& rest == s.skip(26)
        },
        s.len() < 26 ==> decode_logical(protocol_version, streamed, s) matches Decoded::Failed(
            Failure::Rejected(ParseError::UnexpectedEof),
            _,
        ),
{
    lemma_i8_at(s, 1);
    if s.len() >= 2 {
        lemma_u64_at(s, 2);
    }
    if s.len() >= 10 {
        lemma_u64_at(s, 10);
    }
    if s.len() >= 18 {
        lemma_i64_at(s, 18);
    }
}

/// An origin message is `O`, the LSN of the commit, and the name up to the first
/// zero byte, which is at `end`.
pub proof fn law_origin_layout(protocol_version: u8, streamed: bool, s: Seq<u8>, end: int)
    requires
        9 <= end < s.len(),
        s[0] == 0x4f,
        s[end] == 0,
        !s.subrange(9, end).contains(0u8),
    ensures
        decode_logical(protocol_version, streamed, s) matches Decoded::Value(
            Logical::Origin(body),
            rest,
        ) && body.commit_lsn == be_value(s.subrange(1, 9)) && body.name == s.subrange(9, end)
            && rest == s.skip(end + 1),
{
    lemma_u64_at(s, 1);
    lemma_cstr_at(s, 9, end);
}

/// An origin message without a whole LSN, or without the end of the name, is cut
/// short.
pub proof fn law_origin_cut_short(protocol_version: u8, streamed: bool, s: Seq<u8>)
    requires
        s.len() > 0,
        s[0] == 0x4f,
        s.len() < 9 || !s.skip(9).contains(0u8),
    ensures
        decode_logical(protocol_version, streamed, s) matches Decoded::Failed(
            Failure::Rejected(ParseError::UnexpectedEof),
            _,
        ),
{
    lemma_u64_at(s, 1);
    if s.len() >= 9 {
        lemma_no_cstr_at(s, 9);
    }
}

/// From protocol version 2 on, a stream start message is `S`, the transaction ID
/// and the byte that marks the first segment.
pub proof fn law_stream_start_layout(protocol_version: u8, streamed: bool, s: Seq<u8>)
    requires
        protocol_version >= 2,
        s.len() > 0,
        s[0] == 0x53,
    ensures
        s.len() >= 6 ==> {
            &&& decode_logical(protocol_version, streamed, s) matches Decoded::Value(
                Logical::StreamStart(body),
                rest,
            )
            &&& body.xid == be_value(s.subrange(1, 5))
            &&& body.is_first_segment == s[5]
            &&& rest == s.skip(6)
        },
        s.len() < 6 ==> decode_logical(protocol_version, streamed, s) matches Decoded::Failed(
            Failure::Rejected(ParseError::UnexpectedEof),
            _,
        ),
{
    lemma_u32_at(s, 1);
    if s.len() >= 5 {
        lemma_u8_at(s, 5);
    }
}

/// From protocol version 2 on, a stream stop message is `E` alone.
pub proof fn law_stream_stop_layout(protocol_version: u8, streamed: bool, s: Seq<u8>)
    requires
        protocol_version >= 2,
        s.len() > 0,
        s[0] == 0x45,
    ensures
        decode_logical(protocol_version, streamed, s) == Decoded::Value(
            Logical::StreamStop,
            s.skip(1),
        ),
{
}

/// From protocol version 2 on, a stream commit message is `c`, the transaction ID,
/// the flags, the LSN of the commit, the end LSN and the timestamp.
pub proof fn law_stream_commit_layout(protocol_version: u8, streamed: bool, s: Seq<u8>)
    requires
        protocol_version >= 2,
        s.len() > 0,
        s[0] == 0x63,
    ensures
        s.len() >= 30 ==> {
            &&& decode_logical(protocol_version, streamed, s) matches Decoded::Value(
                Logical::StreamCommit(body),
                rest,
            )
            &&& body.xid == be_value(s.subrange(1, 5))
            &&& body.flags == to_signed(be_value(s.subrange(5, 6)), 1)
            &&& body.commit_lsn == be_value(s.subrange(6, 14))
            &&& body.end_lsn == be_value(s.subrange(14, 22))
            &&& body.timestamp == to_signed(be_value(s.subrange(22, 30)), 8)
            &&& rest == s.skip(30)
        },
        s.len() < 30 ==> decode_logical(protocol_version, streamed, s) matches Decoded::Failed(
            Failure::Rejected(ParseError::UnexpectedEof),
            _,
        ),
{
    lemma_u32_at(s, 1);
    if s.len() >= 5 {
        lemma_i8_at(s, 5);
    }
    if s.len() >= 6 {
        lemma_u64_at(s, 6);
    }
    if s.len() >= 14 {
        lemma_u64_at(s, 14);
    }
    if s.len() >= 22 {
        lemma_i64_at(s, 22);
    }
}

/// From protocol version 2 on, a stream abort message is `A` and the IDs of the
/// transaction and of the subtransaction.
pub proof fn law_stream_abort_layout(protocol_version: u8, streamed: bool, s: Seq<u8>)
    requires
        protocol_version >= 2,
        s.len() > 0,
        s[0] == 0x41,
    ensures
        s.len() >= 9 ==> {
            &&& decode_logical(protocol_version, streamed, s) matches Decoded::Value(
                Logical::StreamAbort(body),
                rest,
            )
            &&& body.xid == be_value(s.subrange(1, 5))
            &&& body.subxid == be_value(s.subrange(5, 9))
            &&& rest == s.skip(9)
        },
        s.len() < 9 ==> decode_logical(protocol_version, streamed, s) matches Decoded::Failed(
            Failure::Rejected(ParseError::UnexpectedEof),
            _,
        ),
{
    lemma_u32_at(s, 1);
    if s.len() >= 5 {
        lemma_u32_at(s, 5);
    }
}

/// There is no logical replication message without a tag, and none with a tag that
/// is none of `B`, `C`, `O`, `R`, `Y`, `I`, `U`, `D` and `T`, nor, from version 2
/// on, of `S`, `E`, `c` and `A`.
pub proof fn law_logical_tags(protocol_version: u8, streamed: bool, s: Seq<u8>)
    ensures
        s.len() == 0 ==> decode_logical(protocol_version, streamed, s) matches Decoded::Failed(
            Failure::Rejected(ParseError::UnexpectedEof),
            _,
        ),
        s.len() > 0 && !seq![
            0x42u8,
            0x43,
            0x4f,
            0x52,
            0x59,
            0x49,
            0x55,
            0x44,
            0x54,
        ].contains(s[0]) && (protocol_version < 2 || !seq![0x53u8, 0x45, 0x63, 0x41].contains(s[0]))
            ==> decode_logical(protocol_version, streamed, s) == Decoded::<Logical>::Failed(
            Failure::Rejected(ParseError::UnknownMessageTag(s[0])),
            s.skip(1),
        ),
{
    if s.len() > 0 {
        let tags = seq![0x42u8, 0x43, 0x4f, 0x52, 0x59, 0x49, 0x55, 0x44, 0x54];
        let stream_tags = seq![0x53u8, 0x45, 0x63, 0x41];
        assert(tags[0] == 0x42 && tags[1] == 0x43 && tags[2] == 0x4f && tags[3] == 0x52 && tags[4]
            == 0x59 && tags[5] == 0x49 && tags[6] == 0x55 && tags[7] == 0x44 && tags[8] == 0x54);
        assert(stream_tags[0] == 0x53 && stream_tags[1] == 0x45 && stream_tags[2] == 0x63
            && stream_tags[3] == 0x41);
    }
}

/// Whether a streamed transaction is open changes with the tag alone: from version
/// 2 on, `S` opens one, and `E`, `c` and `A` close it.
pub proof fn law_stream_state_follows_tags(protocol_version: u8, streamed: bool, s: Seq<u8>)
    ensures
        protocol_version >= 2 && s.len() > 0 && s[0] == 0x53 ==> streamed_after(
            protocol_version,
            streamed,
            s,
        ),
        protocol_version >= 2 && s.len() > 0 && (s[0] == 0x45 || s[0] == 0x63 || s[0] == 0x41)
            ==> !streamed_after(protocol_version, streamed, s),
        protocol_version < 2 || s.len() == 0 || (s[0] != 0x53 && s[0] != 0x45 && s[0] != 0x63
            && s[0] != 0x41) ==> streamed_after(protocol_version, streamed, s) == streamed,
{
}

// ---- Rows ----

proof fn lemma_tuple_value_at(s: Seq<u8>, at: int)
    requires
        0 <= at <= s.len(),
    ensures
        ({
            let text_len = to_signed(be_value(s.subrange(at + 1, at + 5)), 4);
            let outcome = decode_tuple_value(s.skip(at));
            &&& at == s.len() ==> outcome.is_cut_short()
            &&& at < s.len() && s[at] == 0x6e ==> outcome == Decoded::Value(
                TupleValue::Null,
                s.skip(at + 1),
            )
            &&& at < s.len() && s[at] == 0x75 ==> outcome == Decoded::Value(
                TupleValue::UnchangedToast,
                s.skip(at + 1),
            )
            &&& at < s.len() && s[at] == 0x74 && at + 5 > s.len() ==> outcome.is_cut_short()
            &&& at < s.len() && s[at] == 0x74 && at + 5 <= s.len() && 0 <= text_len && at + 5
                + text_len <= s.len() ==> outcome == Decoded::Value(
                TupleValue::Text(s.subrange(at + 5, at + 5 + text_len)),
                s.skip(at + 5 + text_len),
            )
            &&& at < s.len() && s[at] == 0x74 && at + 5 <= s.len() && (text_len < 0 || at + 5
                + text_len > s.len()) ==> outcome.is_cut_short()
            &&& at < s.len() && s[at] != 0x6e && s[at] != 0x75 && s[at] != 0x74 ==> outcome
                == Decoded::<TupleValue>::Failed(
                Failure::Rejected(ParseError::UnknownMessageTag(s[at])),
                s.skip(at + 1),
            )
        }),
{
    lemma_u8_at(s, at);
    if at < s.len() {
        lemma_i32_at(s, at + 1);
        if at + 5 <= s.len() {
            let text_len = to_signed(be_value(s.subrange(at + 1, at + 5)), 4);
            if 0 <= text_len && at + 5 + text_len <= s.len() {
                assert(s.skip(at + 5).take(text_len) == s.subrange(at + 5, at + 5 + text_len));
                assert(s.skip(at + 5).skip(text_len) == s.skip(at + 5 + text_len));
            }
        }
    }
}

/// A row is the number of its values and the values one behind the other, in
/// order. The value at index `i` stands from `starts[i]` to `starts[i + 1]`: `n`
/// is null, `u` is an unchanged value, and `t` is text, with its length in front.
/// Where these are all the values that were announced, they are the row. Where
/// more were announced, what stands behind them decides.
pub proof fn law_row_layout(s: Seq<u8>, starts: Seq<int>, row: Row)
    requires
        s.len() >= 2,
        starts.len() == row.len() + 1,
        starts[0] == 2,
        forall|i: int|
            0 <= i < row.len() ==> 0 <= starts[i] < starts[i + 1] <= s.len()
                && match #[trigger] row[i] {
                TupleValue::Null => s[starts[i]] == 0x6e && starts[i + 1] == starts[i] + 1,
                TupleValue::UnchangedToast => s[starts[i]] == 0x75 && starts[i + 1] == starts[i]
                    + 1,
                TupleValue::Text(text) => {
                    &&& s[starts[i]] == 0x74
                    &&& starts[i] + 5 <= starts[i + 1]
                    &&& to_signed(be_value(s.subrange(starts[i] + 1, starts[i] + 5)), 4)
                        == text.len()
                    &&& text == s.subrange(starts[i] + 5, starts[i + 1])
                },
            },
    ensures
        ({
            let count = to_signed(be_value(s.subrange(0, 2)), 2);
            let at = starts.last();
            let text_len = to_signed(be_value(s.subrange(at + 1, at + 5)), 4);
            &&& count == row.len() ==> decode_row(s) == Decoded::Value(row, s.skip(at))
            &&& count > row.len() && at < s.len() && s[at] != 0x6e && s[at] != 0x75 && s[at] != 0x74
                ==> decode_row(s) == Decoded::<Row>::Failed(
                Failure::Rejected(ParseError::UnknownMessageTag(s[at])),
                s.skip(at + 1),
            )
            &&& count > row.len() && (at == s.len() || (s[at] == 0x74 && (at + 5 > s.len()
                || text_len < 0 || at + 5 + text_len > s.len()))) ==> decode_row(
                s,
            ) matches Decoded::Failed(Failure::Rejected(ParseError::UnexpectedEof), _)
        }),
{
    let decode = tuple_value_decoder();
    let count = to_signed(be_value(s.subrange(0, 2)), 2);
    let at = starts.last();
    assert(s.skip(0) == s);
    lemma_i16_at(s, 0);
    assert forall|i: int| 0 <= i < row.len() implies decode(s.skip(starts[i])) == Decoded::Value(
        #[trigger] row[i],
        s.skip(starts[i + 1]),
    ) by {
        lemma_tuple_value_at(s, starts[i]);
        if let TupleValue::Text(text) = row[i] {
            assert(starts[i] + 5 + text.len() == starts[i + 1]);
        }
    }
    assert(0 <= at <= s.len()) by {
        if row.len() > 0 {
            assert(row[row.len() - 1] == row.last());
        }
    }
    if count >= row.len() {
        lemma_list_from(decode, count, s, starts, row);
        lemma_tuple_value_at(s, at);
        assert(row + Seq::<TupleValue>::empty() == row);
    }
}

/// A row whose number of values is cut off is cut short, and one with a negative
/// number of values has no meaning.
pub proof fn law_row_count(s: Seq<u8>)
    ensures
        s.len() < 2 ==> decode_row(s) matches Decoded::Failed(
            Failure::Rejected(ParseError::UnexpectedEof),
            _,
        ),
        s.len() >= 2 && to_signed(be_value(s.subrange(0, 2)), 2) < 0 ==> decode_row(
            s,
        ) matches Decoded::Failed(Failure::NegativeCount, _),
{
    assert(s.skip(0) == s);
    lemma_i16_at(s, 0);
}

// ---- Columns ----

proof fn lemma_column_at(s: Seq<u8>, at: int, end: int)
    requires
        0 <= at < end < s.len(),
        s[end] == 0,
        !s.subrange(at + 1, end).contains(0u8),
    ensures
        end + 9 <= s.len() ==> {
            &&& decode_column(s.skip(at)) matches Decoded::Value(column, rest)
            &&& column.flags == to_signed(be_value(s.subrange(at, at + 1)), 1)
            &&& column.name == s.subrange(at + 1, end)
            &&& column.type_id == to_signed(be_value(s.subrange(end + 1, end + 5)), 4)
            &&& column.type_modifier == to_signed(be_value(s.subrange(end + 5, end + 9)), 4)
            &&& rest == s.skip(end + 9)
        },
        end + 9 > s.len() ==> decode_column(s.skip(at)).is_cut_short(),
{
    lemma_i8_at(s, at);
    lemma_cstr_at(s, at + 1, end);
    lemma_i32_at(s, end + 1);
    if end + 5 <= s.len() {
        lemma_i32_at(s, end + 5);
    }
}

/// A list of columns is their number and the columns one behind the other, in
/// order. The column at index `i` stands from `starts[i]` to `starts[i + 1]`: the
/// flags, the name, a zero byte, the type ID and the type modifier. Where these are
/// all the columns that were announced, they are the list.
pub proof fn law_columns_layout(s: Seq<u8>, starts: Seq<int>, columns: Seq<ColumnInfo>)
    requires
        s.len() >= 2,
        starts.len() == columns.len() + 1,
        starts[0] == 2,
        forall|i: int|
            0 <= i < columns.len() ==> {
                let end = starts[i + 1] - 9;
                &&& 0 <= starts[i]
                &&& starts[i] < end
                &&& end + 9 <= s.len()
                &&& (#[trigger] columns[i]).flags == to_signed(
                    be_value(s.subrange(starts[i], starts[i] + 1)),
                    1,
                )
                &&& columns[i].name == s.subrange(starts[i] + 1, end)
                &&& !columns[i].name.contains(0u8)
                &&& s[end] == 0
                &&& columns[i].type_id == to_signed(be_value(s.subrange(end + 1, end + 5)), 4)
                &&& columns[i].type_modifier == to_signed(be_value(s.subrange(end + 5, end + 9)), 4)
            },
    ensures
        to_signed(be_value(s.subrange(0, 2)), 2) == columns.len() ==> decode_columns(s)
            == Decoded::Value(columns, s.skip(starts.last())),
        to_signed(be_value(s.subrange(0, 2)), 2) > columns.len() && (starts.last() == s.len()
            || !s.skip(starts.last() + 1).contains(0u8)) ==> decode_columns(
            s,
        ) matches Decoded::Failed(Failure::Rejected(ParseError::UnexpectedEof), _),
        forall|end: int|
            to_signed(be_value(s.subrange(0, 2)), 2) > columns.len() && starts.last() < end
                < s.len() < end + 9 && #[trigger] s[end] == 0 && !s.subrange(
                starts.last() + 1,
                end,
            ).contains(0u8) ==> decode_columns(s) matches Decoded::Failed(
                Failure::Rejected(ParseError::UnexpectedEof),
                _,
            ),
{
    let decode = column_decoder();
    let count = to_signed(be_value(s.subrange(0, 2)), 2);
    let at = starts.last();
    assert(s.skip(0) == s);
    lemma_i16_at(s, 0);
    assert forall|i: int| 0 <= i < columns.len() implies decode(s.skip(starts[i]))
        == Decoded::Value(#[trigger] columns[i], s.skip(starts[i + 1])) by {
        assert(!columns[i].name.contains(0u8));
        lemma_column_at(s, starts[i], starts[i + 1] - 9);
    }
    assert(0 <= at <= s.len()) by {
        if columns.len() > 0 {
            assert(columns[columns.len() - 1] == columns.last());
        }
    }
    if count >= columns.len() {
        lemma_list_from(decode, count, s, starts, columns);
        assert(columns + Seq::<ColumnInfo>::empty() == columns);
        lemma_i8_at(s, at);
        if at < s.len() && !s.skip(at + 1).contains(0u8) {
            lemma_no_cstr_at(s, at + 1);
        }
        if count > columns.len() {
            assert forall|end: int|
                at < end < s.len() < end + 9 && #[trigger] s[end] == 0 && !s.subrange(
                    at + 1,
                    end,
                ).contains(0u8) implies decode_columns(s).is_cut_short() by {
                lemma_column_at(s, at, end);
            }
        }
    }
}

/// A list of columns whose number is cut off is cut short, and one with a negative
/// number of columns has no meaning.
pub proof fn law_columns_count(s: Seq<u8>)
    ensures
        s.len() < 2 ==> decode_columns(s) matches Decoded::Failed(
            Failure::Rejected(ParseError::UnexpectedEof),
            _,
        ),
        s.len() >= 2 && to_signed(be_value(s.subrange(0, 2)), 2) < 0 ==> decode_columns(
            s,
        ) matches Decoded::Failed(Failure::NegativeCount, _),
{
    assert(s.skip(0) == s);
    lemma_i16_at(s, 0);
}

// ---- Changes ----
//
// Within a streamed transaction the transaction ID stands behind the tag. `at` is
// where the fields start that are there in either case.

/// An insert message is `I`, the relation ID, `N` and the row.
pub proof fn law_insert_layout(
    protocol_version: u8,
    streamed: bool,
    s: Seq<u8>,
    at: int,
)
    requires
        s.len() >= at + 5,
        s[0] == 0x49,
        s[at + 4] == 0x4e,
        at == (if streamed {
            5int
        } else {
            1int
        }),
    ensures
        match decode_row(s.skip(at + 5)) {
            Decoded::Value(row, rest) => {
                &&& decode_logical(protocol_version, streamed, s) matches Decoded::Value(
                    Logical::Insert(body),
                    left,
                )
                &&& streamed ==> (body.xid matches Some(xid) && xid == be_value(s.subrange(1, 5)))
                &&& !streamed ==> body.xid is None
                &&& body.rel_id == be_value(s.subrange(at, at + 4))
                &&& body.tuple == row
                &&& left == rest
            },
            Decoded::Failed(failure, rest) => decode_logical(protocol_version, streamed, s)
                == Decoded::<Logical>::Failed(failure, rest),
        },
{
    lemma_xid_at(streamed, s);
    lemma_u32_at(s, at);
    lemma_u8_at(s, at + 4);
}

/// An update message is `U`, the relation ID, `N` and the new row, where nothing is
/// said of the row as it was.
pub proof fn law_update_layout(
    protocol_version: u8,
    streamed: bool,
    s: Seq<u8>,
    at: int,
)
    requires
        s.len() >= at + 5,
        s[0] == 0x55,
        s[at + 4] == 0x4e,
        at == (if streamed {
            5int
        } else {
            1int
        }),
    ensures
        match decode_row(s.skip(at + 5)) {
            Decoded::Value(row, rest) => {
                &&& decode_logical(protocol_version, streamed, s) matches Decoded::Value(
                    Logical::Update(body),
                    left,
                )
                &&& streamed ==> (body.xid matches Some(xid) && xid == be_value(s.subrange(1, 5)))
                &&& !streamed ==> body.xid is None
                &&& body.rel_id == be_value(s.subrange(at, at + 4))
                &&& body.old_tuple is None
                &&& body.key_tuple is None
                &&& body.new_tuple == row
                &&& left == rest
            },
            Decoded::Failed(failure, rest) => decode_logical(protocol_version, streamed, s)
                == Decoded::<Logical>::Failed(failure, rest),
        },
{
    lemma_xid_at(streamed, s);
    lemma_u32_at(s, at);
    lemma_u8_at(s, at + 4);
}

/// In an update message the row as it was can stand in front of the new one: behind
/// `O` the old tuple, behind `K` the key. Anything but `N` and a row behind that is
/// refused.
pub proof fn law_update_with_previous_layout(
    protocol_version: u8,
    streamed: bool,
    s: Seq<u8>,
    at: int,
)
    requires
        s.len() >= at + 5,
        s[0] == 0x55,
        s[at + 4] == 0x4f || s[at + 4] == 0x4b,
        at == (if streamed {
            5int
        } else {
            1int
        }),
    ensures
        match decode_row(s.skip(at + 5)) {
            Decoded::Value(previous, behind) => if behind.len() == 0 {
                decode_logical(protocol_version, streamed, s) matches Decoded::Failed(
                    Failure::Rejected(ParseError::UnexpectedEof),
                    _,
                )
            } else if behind[0] != 0x4e {
                decode_logical(protocol_version, streamed, s) == Decoded::<Logical>::Failed(
                    Failure::Rejected(ParseError::UnexpectedTupleTag(behind[0])),
                    behind.skip(1),
                )
            } else {
                match decode_row(behind.skip(1)) {
                    Decoded::Value(row, rest) => {
                        &&& decode_logical(protocol_version, streamed, s) matches Decoded::Value(
                            Logical::Update(body),
                            left,
                        )
                        &&& streamed ==> (body.xid matches Some(xid) && xid == be_value(
                            s.subrange(1, 5),
                        ))
                        &&& !streamed ==> body.xid is None
                        &&& body.rel_id == be_value(s.subrange(at, at + 4))
                        &&& s[at + 4] == 0x4f ==> body.old_tuple == Some(previous)
                            && body.key_tuple is None
                        &&& s[at + 4] == 0x4b ==> body.key_tuple == Some(previous)
                            && body.old_tuple is None
                        &&& body.new_tuple == row
                        &&& left == rest
                    },
                    Decoded::Failed(failure, rest) => decode_logical(protocol_version, streamed, s)
                        == Decoded::<Logical>::Failed(failure, rest),
                }
            },
            Decoded::Failed(failure, rest) => decode_logical(protocol_version, streamed, s)
                == Decoded::<Logical>::Failed(failure, rest),
        },
{
    lemma_xid_at(streamed, s);
    lemma_u32_at(s, at);
    lemma_u8_at(s, at + 4);
}

/// A delete message is `D`, the relation ID, and the row as it was: behind `O` the
/// old tuple, behind `K` the key.
pub proof fn law_delete_layout(
    protocol_version: u8,
    streamed: bool,
    s: Seq<u8>,
    at: int,
)
    requires
        s.len() >= at + 5,
        s[0] == 0x44,
        s[at + 4] == 0x4f || s[at + 4] == 0x4b,
        at == (if streamed {
            5int
        } else {
            1int
        }),
    ensures
        match decode_row(s.skip(at + 5)) {
            Decoded::Value(previous, rest) => {
                &&& decode_logical(protocol_version, streamed, s) matches Decoded::Value(
                    Logical::Delete(body),
                    left,
                )
                &&& streamed ==> (body.xid matches Some(xid) && xid == be_value(s.subrange(1, 5)))
                &&& !streamed ==> body.xid is None
                &&& body.rel_id == be_value(s.subrange(at, at + 4))
                &&& s[at + 4] == 0x4f ==> body.old_tuple == Some(previous) && body.key_tuple is None
                &&& s[at + 4] == 0x4b ==> body.key_tuple == Some(previous) && body.old_tuple is None
                &&& left == rest
            },
            Decoded::Failed(failure, rest) => decode_logical(protocol_version, streamed, s)
                == Decoded::<Logical>::Failed(failure, rest),
        },
{
    lemma_xid_at(streamed, s);
    lemma_u32_at(s, at);
    lemma_u8_at(s, at + 4);
}

/// A message about a row that ends before the tag of the row is cut short, and one
/// with a tag that has no place there is refused.
pub proof fn law_row_tags(
    protocol_version: u8,
    streamed: bool,
    s: Seq<u8>,
    at: int,
)
    requires
        s.len() > 0,
        s[0] == 0x49 || s[0] == 0x55 || s[0] == 0x44,
        at == (if streamed {
            5int
        } else {
            1int
        }),
    ensures
        s.len() < at + 5 ==> decode_logical(protocol_version, streamed, s) matches Decoded::Failed(
            Failure::Rejected(ParseError::UnexpectedEof),
            _,
        ),
        s.len() >= at + 5 && s[0] == 0x49 && s[at + 4] != 0x4e ==> decode_logical(
            protocol_version,
            streamed,
            s,
        ) == Decoded::<Logical>::Failed(
            Failure::Rejected(ParseError::UnexpectedTupleTag(s[at + 4])),
            s.skip(at + 5),
        ),
        s.len() >= at + 5 && s[0] == 0x55 && s[at + 4] != 0x4e && s[at + 4] != 0x4f && s[at + 4]
            != 0x4b ==> decode_logical(protocol_version, streamed, s) == Decoded::<Logical>::Failed(
            Failure::Rejected(ParseError::UnknownTupleTag(s[at + 4])),
            s.skip(at + 5),
        ),
        s.len() >= at + 5 && s[0] == 0x44 && s[at + 4] != 0x4f && s[at + 4] != 0x4b
            ==> decode_logical(protocol_version, streamed, s) == Decoded::<Logical>::Failed(
            Failure::Rejected(ParseError::UnknownTupleTag(s[at + 4])),
            s.skip(at + 5),
        ),
{
    lemma_xid_at(streamed, s);
    if s.len() >= at {
        lemma_u32_at(s, at);
    }
    if s.len() >= at + 4 {
        lemma_u8_at(s, at + 4);
    }
}

/// As many relation IDs as the bytes at `at` hold are read from there.
proof fn lemma_rel_ids_at(s: Seq<u8>, at: int, count: int)
    requires
        0 <= at <= s.len(),
        0 <= count,
    ensures
        at + 4 * count <= s.len() ==> {
            &&& decode_list(rel_id_decoder(), count, s.skip(at)) matches Decoded::Value(
                rel_ids,
                rest,
            )
            &&& rel_ids.len() == count
            &&& forall|i: int|
                0 <= i < count ==> #[trigger] rel_ids[i] == be_value(
                    s.subrange(at + 4 * i, at + 4 * i + 4),
                )
            &&& rest == s.skip(at + 4 * count)
        },
        at + 4 * count > s.len() ==> decode_list(
            rel_id_decoder(),
            count,
            s.skip(at),
        ).is_cut_short(),
    decreases count,
{
    if count > 0 {
        lemma_u32_at(s, at);
        if at + 4 <= s.len() {
            lemma_rel_ids_at(s, at + 4, count - 1);
            let whole = decode_list(rel_id_decoder(), count, s.skip(at));
            let behind = decode_list(rel_id_decoder(), count - 1, s.skip(at + 4));
            if let Decoded::Value(others, _) = behind {
                if let Decoded::Value(rel_ids, _) = whole {
                    assert forall|i: int| 0 <= i < count implies #[trigger] rel_ids[i] == be_value(
                        s.subrange(at + 4 * i, at + 4 * i + 4),
                    ) by {
                        if i > 0 {
                            assert(rel_ids[i] == others[i - 1]);
                        }
                    }
                }
            }
        }
    }
}

/// A truncate message is `T`, the number of relations, the options, and the
/// relation IDs in order.
pub proof fn law_truncate_layout(
    protocol_version: u8,
    streamed: bool,
    s: Seq<u8>,
    at: int,
)
    requires
        s.len() > 0,
        s[0] == 0x54,
        at == (if streamed {
            5int
        } else {
            1int
        }),
    ensures
        s.len() < at + 5 ==> decode_logical(protocol_version, streamed, s) matches Decoded::Failed(
            Failure::Rejected(ParseError::UnexpectedEof),
            _,
        ),
        s.len() >= at + 5 ==> {
            let count = to_signed(be_value(s.subrange(at, at + 4)), 4);
            &&& count < 0 ==> (decode_logical(
                protocol_version,
                streamed,
                s,
            ) matches Decoded::Failed(Failure::NegativeCount, _))
            &&& count >= 0 && s.len() < at + 5 + 4 * count ==> (decode_logical(
                protocol_version,
                streamed,
                s,
            ) matches Decoded::Failed(Failure::Rejected(ParseError::UnexpectedEof), _))
            &&& count >= 0 && s.len() >= at + 5 + 4 * count ==> {
                &&& decode_logical(protocol_version, streamed, s) matches Decoded::Value(
                    Logical::Truncate(body),
                    rest,
                )
                &&& streamed ==> (body.xid matches Some(xid) && xid == be_value(s.subrange(1, 5)))
                &&& !streamed ==> body.xid is None
                &&& body.options == to_signed(be_value(s.subrange(at + 4, at + 5)), 1)
                &&& body.rel_ids.len() == count
                &&& forall|i: int|
                    0 <= i < count ==> #[trigger] body.rel_ids[i] == be_value(
                        s.subrange(at + 5 + 4 * i, at + 9 + 4 * i),
                    )
                &&& rest == s.skip(at + 5 + 4 * count)
            }
        },
{
    lemma_xid_at(streamed, s);
    if s.len() >= at {
        lemma_i32_at(s, at);
    }
    if s.len() >= at + 4 {
        lemma_i8_at(s, at + 4);
    }
    if s.len() >= at + 5 {
        let count = to_signed(be_value(s.subrange(at, at + 4)), 4);
        if count >= 0 {
            lemma_rel_ids_at(s, at + 5, count);
        }
    }
}

// ---- Relations and types ----

/// A type message is `Y`, the ID of the type, the namespace up to the first zero
/// byte, which is at `middle`, and the name up to the next one, which is at `end`.
pub proof fn law_type_layout(
    protocol_version: u8,
    streamed: bool,
    s: Seq<u8>,
    at: int,
    middle: int,
    end: int,
)
    requires
        at + 4 <= middle < end < s.len(),
        s[0] == 0x59,
        at == (if streamed {
            5int
        } else {
            1int
        }),
        s[middle] == 0 && !s.subrange(at + 4, middle).contains(0u8),
        s[end] == 0 && !s.subrange(middle + 1, end).contains(0u8),
    ensures
        ({
            &&& decode_logical(protocol_version, streamed, s) matches Decoded::Value(
                Logical::Type(body),
                rest,
            )
            &&& streamed ==> (body.xid matches Some(xid) && xid == be_value(s.subrange(1, 5)))
            &&& !streamed ==> body.xid is None
            &&& body.id == be_value(s.subrange(at, at + 4))
            &&& body.namespace == s.subrange(at + 4, middle)
            &&& body.name == s.subrange(middle + 1, end)
            &&& rest == s.skip(end + 1)
        }),
{
    lemma_xid_at(streamed, s);
    lemma_u32_at(s, at);
    lemma_cstr_at(s, at + 4, middle);
    lemma_cstr_at(s, middle + 1, end);
}

/// A relation message is `R`, the relation ID, the namespace up to the first zero
/// byte, which is at `middle`, the name up to the next one, which is at `end`, the
/// replica identity, and the columns. The replica identity is `d`, `n`, `f` or `i`.
pub proof fn law_relation_layout(
    protocol_version: u8,
    streamed: bool,
    s: Seq<u8>,
    at: int,
    middle: int,
    end: int,
)
    requires
        at + 4 <= middle < end < s.len(),
        s[0] == 0x52,
        at == (if streamed {
            5int
        } else {
            1int
        }),
        s[middle] == 0 && !s.subrange(at + 4, middle).contains(0u8),
        s[end] == 0 && !s.subrange(middle + 1, end).contains(0u8),
    ensures
        end + 1 == s.len() ==> decode_logical(
            protocol_version,
            streamed,
            s,
        ) matches Decoded::Failed(Failure::Rejected(ParseError::UnexpectedEof), _),
        end + 1 < s.len() && s[end + 1] != 0x64 && s[end + 1] != 0x6e && s[end + 1] != 0x66 && s[end
            + 1] != 0x69 ==> decode_logical(protocol_version, streamed, s) == Decoded::<
            Logical,
        >::Failed(
            Failure::Rejected(ParseError::UnknownReplicaIdentityTag(s[end + 1])),
            s.skip(end + 2),
        ),
        end + 1 < s.len() && (s[end + 1] == 0x64 || s[end + 1] == 0x6e || s[end + 1] == 0x66
            || s[end + 1] == 0x69) ==> match decode_columns(s.skip(end + 2)) {
            Decoded::Value(columns, rest) => {
                &&& decode_logical(protocol_version, streamed, s) matches Decoded::Value(
                    Logical::Relation(body),
                    left,
                )
                &&& streamed ==> (body.xid matches Some(xid) && xid == be_value(s.subrange(1, 5)))
                &&& !streamed ==> body.xid is None
                &&& body.rel_id == be_value(s.subrange(at, at + 4))
                &&& body.namespace == s.subrange(at + 4, middle)
                &&& body.name == s.subrange(middle + 1, end)
                &&& s[end + 1] == 0x64 ==> body.replica_identity is Default
                &&& s[end + 1] == 0x6e ==> body.replica_identity is Nothing
                &&& s[end + 1] == 0x66 ==> body.replica_identity is Full
                &&& s[end + 1] == 0x69 ==> body.replica_identity is Index
                &&& body.columns == columns
                &&& left == rest
            },
            Decoded::Failed(failure, rest) => decode_logical(protocol_version, streamed, s)
                == Decoded::<Logical>::Failed(failure, rest),
        },
{
    lemma_xid_at(streamed, s);
    lemma_u32_at(s, at);
    lemma_cstr_at(s, at + 4, middle);
    lemma_cstr_at(s, middle + 1, end);
    lemma_u8_at(s, end + 1);
}

/// A relation or type message that ends before its ID does, or in which the
/// namespace is not ended, is cut short.
pub proof fn law_namespace_cut_short(
    protocol_version: u8,
    streamed: bool,
    s: Seq<u8>,
    at: int,
)
    requires
        s.len() > 0,
        s[0] == 0x52 || s[0] == 0x59,
        at == (if streamed {
            5int
        } else {
            1int
        }),
        s.len() < at + 4 || !s.skip(at + 4).contains(0u8),
    ensures
        decode_logical(protocol_version, streamed, s) matches Decoded::Failed(
            Failure::Rejected(ParseError::UnexpectedEof),
            _,
        ),
{
    lemma_xid_at(streamed, s);
    if s.len() >= at {
        lemma_u32_at(s, at);
    }
    if s.len() >= at + 4 {
        lemma_no_cstr_at(s, at + 4);
    }
}

/// A relation or type message in which the name is not ended is cut short.
pub proof fn law_name_cut_short(
    protocol_version: u8,
    streamed: bool,
    s: Seq<u8>,
    at: int,
    middle: int,
)
    requires
        at + 4 <= middle < s.len(),
        s[0] == 0x52 || s[0] == 0x59,
        at == (if streamed {
            5int
        } else {
            1int
        }),
        s[middle] == 0 && !s.subrange(at + 4, middle).contains(0u8),
        !s.skip(middle + 1).contains(0u8),
    ensures
        decode_logical(protocol_version, streamed, s) matches Decoded::Failed(
            Failure::Rejected(ParseError::UnexpectedEof),
            _,
        ),
{
    lemma_xid_at(streamed, s);
    lemma_u32_at(s, at);
    lemma_cstr_at(s, at + 4, middle);
    lemma_no_cstr_at(s, middle + 1);
}

} // verus!

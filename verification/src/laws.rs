//! What holds of the protocol as a whole.

use crate::buffer::Buffer;
use crate::error::ParseError;
use crate::message_lemmas::{
    lemma_begin_reads_back, lemma_body_extends, lemma_body_is_put, lemma_commit_reads_back,
    lemma_cut_off, lemma_delete_reads_back, lemma_insert_reads_back, lemma_origin_reads_back,
    lemma_relation_reads_back, lemma_stream_abort_reads_back, lemma_stream_commit_reads_back,
    lemma_stream_start_reads_back, lemma_truncate_reads_back, lemma_type_reads_back,
    lemma_update_reads_back,
};
use crate::model::{
    decode_logical, decode_replication, put_logical, put_replication, streamed_after, valid_logical,
    Logical, Replication, XLogData,
};
use crate::tags::{
    DELETE_TAG, INSERT_TAG, RELATION_TAG, STREAM_ABORT_TAG, STREAM_COMMIT_TAG, STREAM_START_TAG,
    STREAM_STOP_TAG, TRUNCATE_TAG, TYPE_TAG, UPDATE_TAG,
};
use crate::wire::{decode_u8, Decoded};
use crate::wire_lemmas::{
    group_extends, group_is_put, group_reads_back, lemma_u8_extends, lemma_u8_is_put,
    lemma_u8_reads_back,
};
use vstd::prelude::*;

verus! {

/// Every message that the protocol knows can be written down and is read back
/// as it was, with the bytes behind it left over.
#[verifier::rlimit(40)]
pub proof fn law_logical_reads_back(
    protocol_version: u8,
    streamed: bool,
    message: Logical,
    rest: Seq<u8>,
)
    requires
        valid_logical(protocol_version, streamed, message),
    ensures
        decode_logical(protocol_version, streamed, put_logical(message, rest)) == Decoded::Value(
            message,
            rest,
        ),
{
    broadcast use lemma_u8_reads_back;

    match message {
        Logical::Begin(body) => lemma_begin_reads_back(body, rest),
        Logical::Commit(body) => lemma_commit_reads_back(body, rest),
        Logical::Origin(body) => lemma_origin_reads_back(body, rest),
        Logical::Relation(body) => lemma_relation_reads_back(streamed, body, rest),
        Logical::Type(body) => lemma_type_reads_back(streamed, body, rest),
        Logical::Insert(body) => lemma_insert_reads_back(streamed, body, rest),
        Logical::Update(body) => lemma_update_reads_back(streamed, body, rest),
        Logical::Delete(body) => lemma_delete_reads_back(streamed, body, rest),
        Logical::Truncate(body) => lemma_truncate_reads_back(streamed, body, rest),
        Logical::StreamStart(body) => lemma_stream_start_reads_back(body, rest),
        Logical::StreamCommit(body) => lemma_stream_commit_reads_back(body, rest),
        Logical::StreamAbort(body) => lemma_stream_abort_reads_back(body, rest),
        Logical::StreamStop => {},
    }
}

/// An input that is read as a message consists of the bytes of that message and
/// of those that are left over, and the message is one that the protocol knows.
#[verifier::rlimit(40)]
pub proof fn law_logical_is_what_was_written(protocol_version: u8, streamed: bool, s: Seq<u8>)
    ensures
        decode_logical(protocol_version, streamed, s) matches Decoded::Value(message, rest) ==> {
            &&& s == put_logical(message, rest)
            &&& valid_logical(protocol_version, streamed, message)
        },
{
    lemma_u8_is_put(s);
    if let Decoded::Value(tag, body) = decode_u8(s) {
        lemma_body_is_put(protocol_version, streamed, tag, body);
    }
}

/// No two messages are written alike: where the bytes agree, so do the messages
/// and what stands behind them.
pub proof fn law_logical_is_unambiguous(
    protocol_version: u8,
    streamed: bool,
    first: Logical,
    first_rest: Seq<u8>,
    second: Logical,
    second_rest: Seq<u8>,
)
    requires
        valid_logical(protocol_version, streamed, first),
        valid_logical(protocol_version, streamed, second),
        put_logical(first, first_rest) == put_logical(second, second_rest),
    ensures
        first == second,
        first_rest == second_rest,
{
    law_logical_reads_back(protocol_version, streamed, first, first_rest);
    law_logical_reads_back(protocol_version, streamed, second, second_rest);
}

/// Once an input is long enough to be judged, whether it is accepted or refused,
/// bytes behind it change nothing.
#[verifier::rlimit(40)]
pub proof fn law_logical_ignores_what_follows(
    protocol_version: u8,
    streamed: bool,
    s: Seq<u8>,
    more: Seq<u8>,
)
    requires
        !decode_logical(protocol_version, streamed, s).is_cut_short(),
    ensures
        decode_logical(protocol_version, streamed, s + more) == decode_logical(
            protocol_version,
            streamed,
            s,
        ).followed_by(more),
{
    lemma_u8_extends(s, more);
    if let Decoded::Value(tag, body) = decode_u8(s) {
        lemma_body_extends(protocol_version, streamed, tag, body, more);
    }
}

/// A message that is cut off anywhere before its end is refused for that.
#[verifier::rlimit(40)]
pub proof fn law_logical_cut_off_is_refused(
    protocol_version: u8,
    streamed: bool,
    s: Seq<u8>,
    message: Logical,
    rest: Seq<u8>,
    at: int,
)
    requires
        decode_logical(protocol_version, streamed, s) == Decoded::Value(message, rest),
        0 <= at < s.len() - rest.len(),
    ensures
        decode_logical(protocol_version, streamed, s.take(at)).is_rejected_with(
            ParseError::UnexpectedEof,
        ),
{
    let whole = decode_logical(protocol_version, streamed, s);
    let cut = decode_logical(protocol_version, streamed, s.take(at));
    let more = s.skip(at);
    assert(rest.len() < more.len());
    if !cut.is_cut_short() {
        law_logical_ignores_what_follows(protocol_version, streamed, s.take(at), more);
        assert(s.take(at) + more == s);
    }
    lemma_cut_off(whole, cut, more);
}

// ---- Streamed transactions ----

/// A message that opens a streamed transaction leaves one open, a message that
/// closes one leaves none open, and no other message makes a difference.
pub proof fn law_stream_state_follows_messages(
    protocol_version: u8,
    streamed: bool,
    message: Logical,
    rest: Seq<u8>,
)
    requires
        valid_logical(protocol_version, streamed, message),
    ensures
        streamed_after(protocol_version, streamed, put_logical(message, rest)) == match message {
            Logical::StreamStart(_) => true,
            Logical::StreamStop => false,
            Logical::StreamCommit(_) => false,
            Logical::StreamAbort(_) => false,
            _ => streamed,
        },
{
}

/// The transaction ID that a message carries on account of a streamed
/// transaction: `None` for messages that have no room for one.
pub open spec fn stream_xid(message: Logical) -> Option<Option<u32>> {
    match message {
        Logical::Relation(body) => Some(body.xid),
        Logical::Type(body) => Some(body.xid),
        Logical::Insert(body) => Some(body.xid),
        Logical::Update(body) => Some(body.xid),
        Logical::Delete(body) => Some(body.xid),
        Logical::Truncate(body) => Some(body.xid),
        _ => None,
    }
}

/// Within a streamed transaction every message about tables, types and rows
/// carries the ID of the transaction. Outside of one none does.
pub proof fn law_xid_is_carried_within_streams(protocol_version: u8, streamed: bool, s: Seq<u8>)
    ensures
        decode_logical(protocol_version, streamed, s) matches Decoded::Value(message, _) ==> (
        stream_xid(message) matches Some(xid) ==> (xid is Some <==> streamed)),
{
    law_logical_is_what_was_written(protocol_version, streamed, s);
}

/// Whether a streamed transaction is open matters to messages about tables,
/// types and rows alone.
pub proof fn law_other_messages_ignore_streams(protocol_version: u8, s: Seq<u8>)
    requires
        s.len() > 0 ==> {
            &&& s[0] != RELATION_TAG
            &&& s[0] != TYPE_TAG
            &&& s[0] != INSERT_TAG
            &&& s[0] != UPDATE_TAG
            &&& s[0] != DELETE_TAG
            &&& s[0] != TRUNCATE_TAG
        },
    ensures
        decode_logical(protocol_version, true, s) == decode_logical(protocol_version, false, s),
{
}

/// Below protocol version 2 the messages about streamed transactions are
/// unknown, and no message opens or closes one.
pub proof fn law_streams_need_version_2(protocol_version: u8, streamed: bool, s: Seq<u8>)
    requires
        protocol_version < 2,
    ensures
        streamed_after(protocol_version, streamed, s) == streamed,
        is_about_streams(s) ==> decode_logical(protocol_version, streamed, s).is_rejected_with(
            ParseError::UnknownMessageTag(s[0]),
        ),
{
}

/// Protocol versions differ in nothing but whether they know streamed
/// transactions.
pub proof fn law_versions_differ_in_streams_alone(
    first: u8,
    second: u8,
    streamed: bool,
    s: Seq<u8>,
)
    requires
        first >= 2 <==> second >= 2,
    ensures
        decode_logical(first, streamed, s) == decode_logical(second, streamed, s),
        streamed_after(first, streamed, s) == streamed_after(second, streamed, s),
{
}

/// Whether an input starts with the tag of a message that opens or closes a
/// streamed transaction.
pub open spec fn is_about_streams(s: Seq<u8>) -> bool {
    s.len() > 0 && (s[0] == STREAM_START_TAG || s[0] == STREAM_STOP_TAG || s[0] == STREAM_COMMIT_TAG
        || s[0] == STREAM_ABORT_TAG)
}

/// Whether a streamed transaction is open after a run of inputs.
pub open spec fn streamed_after_all(
    protocol_version: u8,
    streamed: bool,
    inputs: Seq<Seq<u8>>,
) -> bool
    decreases inputs.len(),
{
    if inputs.len() == 0 {
        streamed
    } else {
        streamed_after(
            protocol_version,
            streamed_after_all(protocol_version, streamed, inputs.drop_last()),
            inputs.last(),
        )
    }
}

/// Inputs that are not about streamed transactions leave things as they were,
/// however many there are.
pub proof fn law_other_inputs_keep_the_stream_state(
    protocol_version: u8,
    streamed: bool,
    inputs: Seq<Seq<u8>>,
)
    requires
        forall|i: int| 0 <= i < inputs.len() ==> !is_about_streams(#[trigger] inputs[i]),
    ensures
        streamed_after_all(protocol_version, streamed, inputs) == streamed,
    decreases inputs.len(),
{
    if inputs.len() > 0 {
        law_other_inputs_keep_the_stream_state(protocol_version, streamed, inputs.drop_last());
        assert(!is_about_streams(inputs[inputs.len() - 1]));
    }
}

/// After a run of inputs, a streamed transaction is open exactly if the last of
/// them that is about streamed transactions opens one.
pub proof fn law_last_stream_message_decides(
    protocol_version: u8,
    streamed: bool,
    inputs: Seq<Seq<u8>>,
    at: int,
)
    requires
        protocol_version >= 2,
        0 <= at < inputs.len(),
        is_about_streams(inputs[at]),
        forall|i: int| at < i < inputs.len() ==> !is_about_streams(#[trigger] inputs[i]),
    ensures
        streamed_after_all(protocol_version, streamed, inputs) <==> inputs[at][0]
            == STREAM_START_TAG,
    decreases inputs.len(),
{
    if at < inputs.len() - 1 {
        assert(inputs.drop_last()[at] == inputs[at]);
        assert(!is_about_streams(inputs[inputs.len() - 1]));
        law_last_stream_message_decides(protocol_version, streamed, inputs.drop_last(), at);
    }
}

// ---- Rows as they were ----

/// An update tells the old tuple or the key of the row as it was, never both. A
/// delete tells exactly one of them.
pub proof fn law_old_tuple_or_key(protocol_version: u8, streamed: bool, s: Seq<u8>)
    ensures
        decode_logical(protocol_version, streamed, s) matches Decoded::Value(
            Logical::Update(body),
            _,
        ) ==> body.old_tuple is None || body.key_tuple is None,
        decode_logical(protocol_version, streamed, s) matches Decoded::Value(
            Logical::Delete(body),
            _,
        ) ==> (body.old_tuple is Some <==> body.key_tuple is None),
{
    law_logical_is_what_was_written(protocol_version, streamed, s);
}

// ---- Replication messages ----

/// Every replication message is read back as it was. A keepalive message leaves
/// the bytes behind it over; behind the data of a piece of the log there are
/// none.
pub proof fn law_replication_reads_back(message: Replication, rest: Seq<u8>)
    ensures
        decode_replication(put_replication(message, rest)) == Decoded::Value(
            message,
            if message is XLogData {
                Seq::empty()
            } else {
                rest
            },
        ),
{
    broadcast use group_reads_back;

}

/// An input that is read as a replication message consists of the bytes of that
/// message and of those that are left over.
pub proof fn law_replication_is_what_was_written(s: Seq<u8>)
    ensures
        decode_replication(s) matches Decoded::Value(message, rest) ==> {
            &&& s == put_replication(message, rest)
            &&& message is XLogData ==> rest == Seq::<u8>::empty()
        },
{
    broadcast use group_is_put;

}

/// Bytes behind a keepalive message are passed over, and those behind a piece of
/// the log are more of its data. Bytes behind an unknown tag change nothing.
pub proof fn law_replication_with_more_bytes(s: Seq<u8>, more: Seq<u8>)
    requires
        !decode_replication(s).is_cut_short(),
    ensures
        decode_replication(s + more) == match decode_replication(s) {
            Decoded::Value(Replication::XLogData(body), rest) => Decoded::Value(
                Replication::XLogData(
                    XLogData {
                        wal_start: body.wal_start,
                        wal_end: body.wal_end,
                        timestamp: body.timestamp,
                        data: body.data + more,
                    },
                ),
                rest,
            ),
            other => other.followed_by(more),
        },
{
    broadcast use group_extends;

}

/// A replication message that is cut off within its tag and its numbers is
/// refused for that. A piece of the log that is cut off within its data is read
/// with the data that are left.
pub proof fn law_replication_cut_off_is_refused(
    s: Seq<u8>,
    message: Replication,
    rest: Seq<u8>,
    at: int,
)
    requires
        decode_replication(s) == Decoded::Value(message, rest),
        0 <= at < s.len() - rest.len(),
    ensures
        match message {
            Replication::XLogData(body) if at >= s.len() - body.data.len() => decode_replication(
                s.take(at),
            ) == Decoded::Value(
                Replication::XLogData(
                    XLogData {
                        wal_start: body.wal_start,
                        wal_end: body.wal_end,
                        timestamp: body.timestamp,
                        data: body.data.take(at - (s.len() - body.data.len())),
                    },
                ),
                Seq::empty(),
            ),
            _ => decode_replication(s.take(at)).is_rejected_with(ParseError::UnexpectedEof),
        },
{
    let t = s.take(at);
    assert(t[0] == s[0] || at == 0);
    if let Replication::XLogData(body) = message {
        assert(body.data == s.skip(25));
        if at >= 25 {
            assert(t.skip(1).take(8) == s.skip(1).take(8));
            assert(t.skip(1).skip(8).take(8) == s.skip(1).skip(8).take(8));
            assert(t.skip(1).skip(8).skip(8).take(8) == s.skip(1).skip(8).skip(8).take(8));
            assert(t.skip(1).skip(8).skip(8).skip(8) == body.data.take(at - 25));
        }
    }
}

// ---- Reading ----

/// After any run of reads, failed ones among them, what is left to read is the
/// first input behind the cursor. Each read leaves a cursor that continues the one
/// before it.
pub proof fn law_reads_leave_the_unread_rest(states: Seq<Buffer>)
    requires
        states.len() > 0,
        states[0].position() == 0,
        forall|i: int| 0 <= i < states.len() ==> (#[trigger] states[i]).wf(),
        forall|i: int| 0 < i < states.len() ==> (#[trigger] states[i]).continues(states[i - 1]),
    ensures
        states.last().continues(states[0]),
        states.last().position() <= states[0]@.len(),
        states.last()@ == states[0]@.skip(states.last().position()),
    decreases states.len(),
{
    states[0].lemma_rest();
    states.last().lemma_rest();
    assert(states[0].source() == states[0]@);
    if states.len() > 1 {
        assert(states.last().continues(states[states.len() - 2]));
        law_reads_leave_the_unread_rest(states.drop_last());
    }
}

} // verus!

//! What the values that callers get stand for: how messages, rows, columns, text
//! and errors relate to the models that the wire format is stated over.

use crate::error::{about_tag, decimal, Failure, ParseError};
use crate::model::{decode_logical, Logical, Replication, TupleValue};
use crate::protocol::logical::{has_negative_count, is_parsed, LogicalReplicationMessage};
use crate::protocol::relation::{infos, Column};
use crate::protocol::replication::ReplicationMessage;
use crate::protocol::tuple::{values, TupleData};
use crate::text::is_text_of;
use crate::trusted::{contents, utf8_error};
use crate::wire::Decoded;
use bytes::Bytes;
use vstd::prelude::*;
use vstd::string::to_string_from_display_ensures;
use vstd::utf8::{
    decode_utf8_encode_utf8, encode_utf8, encode_utf8_decode_utf8, encode_utf8_valid_utf8,
    valid_utf8,
};

verus! {

// ---- Lists ----

/// A row has one value for each entry of a tuple's data, at the same index: null for
/// null, unchanged for unchanged, and text with the same bytes for text.
pub proof fn law_tuple_data_keeps_its_order(data: Seq<TupleData>)
    ensures
        values(data).len() == data.len(),
        forall|i: int|
            0 <= i < data.len() ==> match #[trigger] data[i] {
                TupleData::Null => values(data)[i] == TupleValue::Null,
                TupleData::UnchangedToast => values(data)[i] == TupleValue::UnchangedToast,
                TupleData::Text(bytes) => values(data)[i] == TupleValue::Text(contents(bytes)),
            },
{
}

/// One entry more in a tuple's data is one value more at the end of the row, and the
/// values before it stay what they are.
pub proof fn law_tuple_data_grows_at_the_end(data: Seq<TupleData>, last: TupleData)
    ensures
        values(data.push(last)).drop_last() == values(data),
        values(data.push(last)).last() == match last {
            TupleData::Null => TupleValue::Null,
            TupleData::UnchangedToast => TupleValue::UnchangedToast,
            TupleData::Text(bytes) => TupleValue::Text(contents(bytes)),
        },
{
    assert(values(data.push(last)).drop_last() =~= values(data));
}

/// The model of a list of columns holds the model of each column at the column's own
/// index.
pub proof fn law_columns_keep_their_order(columns: Seq<Column>)
    ensures
        infos(columns).len() == columns.len(),
        forall|i: int| 0 <= i < columns.len() ==> infos(columns)[i] == (#[trigger] columns[i])@,
{
}

/// One column more is one model more at the end, and those before it stay what they
/// are.
pub proof fn law_columns_grow_at_the_end(columns: Seq<Column>, last: Column)
    ensures
        infos(columns.push(last)) == infos(columns).push(last@),
{
    assert(infos(columns.push(last)) =~= infos(columns).push(last@));
}

// ---- Messages ----

/// The model of a replication message has every field of the message's body as it is.
pub proof fn law_replication_message_keeps_its_fields(message: ReplicationMessage<Bytes>)
    ensures
        match message {
            ReplicationMessage::XLogData(body) => {
                &&& message.model() matches Replication::XLogData(model)
                &&& model.wal_start == body@.wal_start
                &&& model.wal_end == body@.wal_end
                &&& model.timestamp == body@.timestamp
                &&& model.data == contents(body@.data)
            },
            ReplicationMessage::PrimaryKeepAlive(body) => {
                &&& message.model() matches Replication::PrimaryKeepAlive(model)
                &&& model.wal_end == body@.wal_end
                &&& model.timestamp == body@.timestamp
                &&& model.reply == body@.reply
            },
        },
{
}

/// A parsed logical replication message is of the kind, and has the body, that the
/// input is decoded to. An error is the one that the input is refused with.
pub proof fn law_parsed_message_keeps_its_body(
    result: Result<LogicalReplicationMessage, ParseError>,
    protocol_version: u8,
    streamed: bool,
    s: Seq<u8>,
)
    requires
        is_parsed(result, protocol_version, streamed, s),
    ensures
        match decode_logical(protocol_version, streamed, s) {
            Decoded::Value(Logical::Begin(model), _) => result matches Ok(
                LogicalReplicationMessage::Begin(body),
            ) && body@ == model,
            Decoded::Value(Logical::Commit(model), _) => result matches Ok(
                LogicalReplicationMessage::Commit(body),
            ) && body@ == model,
            Decoded::Value(Logical::Origin(model), _) => result matches Ok(
                LogicalReplicationMessage::Origin(body),
            ) && body@ == model,
            Decoded::Value(Logical::Relation(model), _) => result matches Ok(
                LogicalReplicationMessage::Relation(body),
            ) && body@ == model,
            Decoded::Value(Logical::Type(model), _) => result matches Ok(
                LogicalReplicationMessage::Type(body),
            ) && body@ == model,
            Decoded::Value(Logical::Insert(model), _) => result matches Ok(
                LogicalReplicationMessage::Insert(body),
            ) && body@ == model,
            Decoded::Value(Logical::Update(model), _) => result matches Ok(
                LogicalReplicationMessage::Update(body),
            ) && body@ == model,
            Decoded::Value(Logical::Delete(model), _) => result matches Ok(
                LogicalReplicationMessage::Delete(body),
            ) && body@ == model,
            Decoded::Value(Logical::Truncate(model), _) => result matches Ok(
                LogicalReplicationMessage::Truncate(body),
            ) && body@ == model,
            Decoded::Value(Logical::StreamStart(model), _) => result matches Ok(
                LogicalReplicationMessage::StreamStart(body),
            ) && body@ == model,
            Decoded::Value(Logical::StreamStop, _) => result matches Ok(
                LogicalReplicationMessage::StreamStop(_),
            ),
            Decoded::Value(Logical::StreamCommit(model), _) => result matches Ok(
                LogicalReplicationMessage::StreamCommit(body),
            ) && body@ == model,
            Decoded::Value(Logical::StreamAbort(model), _) => result matches Ok(
                LogicalReplicationMessage::StreamAbort(body),
            ) && body@ == model,
            Decoded::Failed(Failure::Rejected(error), _) => result matches Err(given) && given
                == error,
            Decoded::Failed(Failure::NegativeCount, _) => false,
        },
{
}

/// An input has a negative count exactly where decoding it fails for that reason.
pub proof fn law_negative_counts(protocol_version: u8, streamed: bool, s: Seq<u8>)
    ensures
        has_negative_count(protocol_version, streamed, s) <==> (decode_logical(
            protocol_version,
            streamed,
            s,
        ) matches Decoded::Failed(Failure::NegativeCount, _)),
{
}

// ---- Text ----

/// Text that is given for bytes is the whole of them: encoded as UTF-8 again it is
/// the same bytes. Only bytes that are not UTF-8 have no text, and the decoder's
/// error on all of them is given instead.
pub proof fn law_text_is_the_whole_of_the_bytes(result: Result<&str, ParseError>, bytes: Seq<u8>)
    requires
        is_text_of(result, bytes),
    ensures
        match result {
            Ok(text) => encode_utf8(text@) == bytes,
            Err(error) => !valid_utf8(bytes) && error == ParseError::InvalidUtf8(utf8_error(bytes)),
        },
{
    if valid_utf8(bytes) {
        decode_utf8_encode_utf8(bytes);
    }
}

/// Every text that is written as UTF-8 is read back as it was.
pub proof fn law_text_reads_back(result: Result<&str, ParseError>, chars: Seq<char>)
    requires
        is_text_of(result, encode_utf8(chars)),
    ensures
        result matches Ok(text) && text@ == chars,
{
    encode_utf8_valid_utf8(chars);
    encode_utf8_decode_utf8(chars);
}

// ---- Errors ----

/// An error is about the end of the input, or about something invalid in it.
pub proof fn law_error_kinds(error: ParseError)
    ensures
        error is UnexpectedEof ==> error.kind_of() is UnexpectedEof,
        !(error is UnexpectedEof) ==> error.kind_of() is InvalidInput,
{
}

/// What an error says of itself: a fixed sentence, with the tag that it is about in
/// decimal between backticks, without leading zeros.
pub proof fn law_error_texts(error: ParseError, text: String, tag: u8)
    requires
        error.reads(text),
    ensures
        ({
            let digits = if tag < 10 {
                seq![(48 + tag) as char]
            } else if tag < 100 {
                seq![(48 + tag / 10) as char, (48 + tag % 10) as char]
            } else {
                seq![
                    (48 + tag / 100) as char,
                    (48 + tag / 10 % 10) as char,
                    (48 + tag % 10) as char,
                ]
            };
            let quoted = seq![' ', '`'] + digits + seq!['`'];
            &&& error == ParseError::UnexpectedEof ==> text@ == "unexpected EOF"@
            &&& error == ParseError::UnknownMessageTag(tag) ==> text@
                == "unknown replication message tag"@ + quoted
            &&& error == ParseError::UnknownReplicaIdentityTag(tag) ==> text@
                == "unknown replica identity tag"@ + quoted
            &&& error == ParseError::UnexpectedTupleTag(tag) ==> text@ == "unexpected tuple tag"@
                + quoted
            &&& error == ParseError::UnknownTupleTag(tag) ==> text@ == "unknown tuple tag"@ + quoted
            &&& (error matches ParseError::InvalidUtf8(cause) ==> to_string_from_display_ensures(
                &cause,
                text,
            ))
        }),
{
    reveal_with_fuel(decimal, 3);
    let digits = decimal(tag as nat);
    if tag >= 100 {
        assert(digits =~= seq![
            (48 + tag / 100) as char,
            (48 + tag / 10 % 10) as char,
            (48 + tag % 10) as char,
        ]);
    } else if tag >= 10 {
        assert(digits =~= seq![(48 + tag / 10) as char, (48 + tag % 10) as char]);
    }
    assert forall|words: Seq<char>| #[trigger] about_tag(words, tag) == words + (seq![' ', '`']
        + digits + seq!['`']) by {
        assert(words + seq![' ', '`'] + digits + seq!['`'] =~= words + (seq![' ', '`'] + digits
            + seq!['`']));
    }
}

} // verus!

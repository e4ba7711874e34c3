//! The messages of a logical replication stream.

use crate::buffer::{outcome, Buffer};
use crate::error::{Failure, ParseError};
use crate::model::{decode_logical, streamed_after, Logical};
use crate::protocol::change::{DeleteBody, InsertBody, TruncateBody, UpdateBody};
use crate::protocol::relation::{RelationBody, TypeBody};
use crate::protocol::transaction::{
    BeginBody, CommitBody, OriginBody, StreamAbortBody, StreamCommitBody, StreamStartBody,
    StreamStopBody,
};
use crate::tags::{
    BEGIN_TAG, COMMIT_TAG, DELETE_TAG, INSERT_TAG, ORIGIN_TAG, RELATION_TAG, STREAM_ABORT_TAG,
    STREAM_COMMIT_TAG, STREAM_START_TAG, STREAM_STOP_TAG, TRUNCATE_TAG, TYPE_TAG, UPDATE_TAG,
};
use crate::trusted::contents;
use crate::wire::Decoded;
use bytes::Bytes;
use vstd::prelude::*;

verus! {

#[non_exhaustive]
/// A message of the logical replication stream
#[derive(Debug)]
pub enum LogicalReplicationMessage {
    /// A BEGIN statement
    Begin(BeginBody),
    /// A COMMIT statement
    Commit(CommitBody),
    /// An Origin replication message
    /// Note that there can be multiple Origin messages inside a single transaction.
    Origin(OriginBody),
    /// A Relation replication message
    Relation(RelationBody),
    /// A Type replication message
    Type(TypeBody),
    /// An INSERT statement
    Insert(InsertBody),
    /// An UPDATE statement
    Update(UpdateBody),
    /// A DELETE statement
    Delete(DeleteBody),
    /// A TRUNCATE statement
    Truncate(TruncateBody),
    /// (V2)
    /// A STREAM START statement
    StreamStart(StreamStartBody),
    /// A STREAM STOP statement
    StreamStop(StreamStopBody),
    /// A STREAM COMMIT statement
    StreamCommit(StreamCommitBody),
    /// A STREAM ABORT statement
    StreamAbort(StreamAbortBody),
}

impl View for LogicalReplicationMessage {
    type V = Logical;

    open spec fn view(&self) -> Logical {
        match *self {
            LogicalReplicationMessage::Begin(body) => Logical::Begin(body@),
            LogicalReplicationMessage::Commit(body) => Logical::Commit(body@),
            LogicalReplicationMessage::Origin(body) => Logical::Origin(body@),
            LogicalReplicationMessage::Relation(body) => Logical::Relation(body@),
            LogicalReplicationMessage::Type(body) => Logical::Type(body@),
            LogicalReplicationMessage::Insert(body) => Logical::Insert(body@),
            LogicalReplicationMessage::Update(body) => Logical::Update(body@),
            LogicalReplicationMessage::Delete(body) => Logical::Delete(body@),
            LogicalReplicationMessage::Truncate(body) => Logical::Truncate(body@),
            LogicalReplicationMessage::StreamStart(body) => Logical::StreamStart(body@),
            LogicalReplicationMessage::StreamStop(_) => Logical::StreamStop,
            LogicalReplicationMessage::StreamCommit(body) => Logical::StreamCommit(body@),
            LogicalReplicationMessage::StreamAbort(body) => Logical::StreamAbort(body@),
        }
    }
}

/// Whether a list is reached that announces a negative number of entries.
pub open spec fn has_negative_count(protocol_version: u8, streamed: bool, s: Seq<u8>) -> bool {
    decode_logical(protocol_version, streamed, s).fails_with(Failure::NegativeCount)
}

/// Whether `result` is what the start of `s` comes to.
pub open spec fn is_parsed(
    result: Result<LogicalReplicationMessage, ParseError>,
    protocol_version: u8,
    streamed: bool,
    s: Seq<u8>,
) -> bool {
    match result {
        Ok(message) => decode_logical(protocol_version, streamed, s) matches Decoded::Value(
            model,
            _,
        ) && model == message@,
        Err(error) => decode_logical(protocol_version, streamed, s).is_rejected_with(error),
    }
}

impl LogicalReplicationMessage {
    /// Parses a message. Bytes behind it are passed over.
    ///
    /// `in_streamed_transaction` says whether a streamed transaction is open,
    /// and is kept up to date by the messages that open and close one.
    pub fn parse(
        buf: &Bytes,
        protocol_version: u8,
        in_streamed_transaction: &mut bool,
    ) -> (result: Result<Self, ParseError>)
        requires
            !has_negative_count(protocol_version, *old(in_streamed_transaction), contents(*buf)),
        ensures
            is_parsed(result, protocol_version, *old(in_streamed_transaction), contents(*buf)),
            *final(in_streamed_transaction) == streamed_after(
                protocol_version,
                *old(in_streamed_transaction),
                contents(*buf),
            ),
    {
        let mut buf = Buffer::new(buf);
        match LogicalReplicationMessage::read(&mut buf, protocol_version, in_streamed_transaction) {
            Ok(message) => Ok(message),
            Err(failure) => Err(failure.into_error()),
        }
    }

    /// Parses a message like [`Self::parse`], and gives `None` where a list
    /// announces a negative number of entries.
    pub fn try_parse(
        buf: &Bytes,
        protocol_version: u8,
        in_streamed_transaction: &mut bool,
    ) -> (parsed: Option<Result<Self, ParseError>>)
        ensures
            match parsed {
                Some(result) => is_parsed(
                    result,
                    protocol_version,
                    *old(in_streamed_transaction),
                    contents(*buf),
                ),
                None => has_negative_count(
                    protocol_version,
                    *old(in_streamed_transaction),
                    contents(*buf),
                ),
            },
            *final(in_streamed_transaction) == streamed_after(
                protocol_version,
                *old(in_streamed_transaction),
                contents(*buf),
            ),
    {
        let mut buf = Buffer::new(buf);
        match LogicalReplicationMessage::read(&mut buf, protocol_version, in_streamed_transaction) {
            Ok(message) => Some(Ok(message)),
            Err(Failure::Rejected(error)) => Some(Err(error)),
            Err(Failure::NegativeCount) => None,
        }
    }

    fn read(
        buf: &mut Buffer,
        protocol_version: u8,
        in_streamed_transaction: &mut bool,
    ) -> (result: Result<Self, Failure>)
        requires
            old(buf).wf(),
        ensures
            final(buf).wf(),
            final(buf).continues(*old(buf)),
            outcome(result, final(buf)@) == decode_logical(
                protocol_version,
                *old(in_streamed_transaction),
                old(buf)@,
            ),
            *final(in_streamed_transaction) == streamed_after(
                protocol_version,
                *old(in_streamed_transaction),
                old(buf)@,
            ),
    {
        let tag = buf.read_u8()?;
        let streamed = *in_streamed_transaction;
        if protocol_version >= 2 {
            match tag {
                STREAM_START_TAG => *in_streamed_transaction = true,
                STREAM_STOP_TAG | STREAM_COMMIT_TAG | STREAM_ABORT_TAG => {
                    *in_streamed_transaction = false;
                },
                _ => {},
            }
        }

        let logical_replication_message = match tag {
            BEGIN_TAG => LogicalReplicationMessage::Begin(BeginBody::parse(buf)?),
            COMMIT_TAG => LogicalReplicationMessage::Commit(CommitBody::parse(buf)?),
            ORIGIN_TAG => LogicalReplicationMessage::Origin(OriginBody::parse(buf)?),
            RELATION_TAG => LogicalReplicationMessage::Relation(
                RelationBody::parse(buf, streamed)?,
            ),
            TYPE_TAG => LogicalReplicationMessage::Type(TypeBody::parse(buf, streamed)?),
            INSERT_TAG => LogicalReplicationMessage::Insert(InsertBody::parse(buf, streamed)?),
            UPDATE_TAG => LogicalReplicationMessage::Update(UpdateBody::parse(buf, streamed)?),
            DELETE_TAG => LogicalReplicationMessage::Delete(DeleteBody::parse(buf, streamed)?),
            TRUNCATE_TAG => LogicalReplicationMessage::Truncate(
                TruncateBody::parse(buf, streamed)?,
            ),
            tag => {
                if protocol_version < 2 {
                    return Err(Failure::Rejected(ParseError::UnknownMessageTag(tag)));
                }
                // Protocol v2 messages
                match tag {
                    STREAM_START_TAG => LogicalReplicationMessage::StreamStart(
                        StreamStartBody::parse(buf)?,
                    ),
                    STREAM_STOP_TAG => LogicalReplicationMessage::StreamStop(
                        StreamStopBody::new(),
                    ),
                    STREAM_COMMIT_TAG => LogicalReplicationMessage::StreamCommit(
                        StreamCommitBody::parse(buf)?,
                    ),
                    STREAM_ABORT_TAG => LogicalReplicationMessage::StreamAbort(
                        StreamAbortBody::parse(buf)?,
                    ),
                    tag => {
                        return Err(Failure::Rejected(ParseError::UnknownMessageTag(tag)));
                    },
                }
            },
        };

        Ok(logical_replication_message)
    }
}

} // verus!

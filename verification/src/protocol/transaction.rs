//! Where transactions begin and end, in the stream or within it.

use crate::buffer::{outcome, Buffer};
use crate::error::{Failure, ParseError};
use crate::model::{
    decode_begin, decode_commit, decode_origin, decode_stream_abort, decode_stream_commit,
    decode_stream_start, Begin, Commit, Origin, StreamAbort, StreamCommit, StreamStart,
};
use crate::text::{get_str, is_text_of};
use crate::trusted::contents;
use bytes::Bytes;
use postgres_protocol::Lsn;
use std::ops::Deref;
use vstd::prelude::*;

verus! {

/// A BEGIN statement
#[derive(Debug)]
pub struct BeginBody {
    final_lsn: u64,
    timestamp: i64,
    xid: u32,
}

impl View for BeginBody {
    type V = Begin;

    closed spec fn view(&self) -> Begin {
        Begin {
            final_lsn: self.final_lsn,
            timestamp: self.timestamp,
            xid: self.xid,
        }
    }
}

impl BeginBody {
    #[inline]
    /// Gets the final lsn of the transaction
    pub fn final_lsn(&self) -> (value: Lsn)
        ensures
            value == self@.final_lsn,
    {
        self.final_lsn
    }

    #[inline]
    /// Commit timestamp of the transaction. The value is in number of microseconds since
    /// PostgreSQL epoch (2000-01-01).
    pub fn timestamp(&self) -> (value: i64)
        ensures
            value == self@.timestamp,
    {
        self.timestamp
    }

    #[inline]
    /// Xid of the transaction.
    pub fn xid(&self) -> (value: u32)
        ensures
            value == self@.xid,
    {
        self.xid
    }

    pub(crate) fn parse(buf: &mut Buffer) -> (result: Result<BeginBody, Failure>)
        requires
            old(buf).wf(),
        ensures
            final(buf).wf(),
            final(buf).continues(*old(buf)),
            outcome(result, final(buf)@) == decode_begin(old(buf)@),
    {
        Ok(
            BeginBody {
                final_lsn: buf.read_u64_be()?,
                timestamp: buf.read_i64_be()?,
                xid: buf.read_u32_be()?,
            },
        )
    }
}

/// A COMMIT statement
#[derive(Debug)]
pub struct CommitBody {
    flags: i8,
    commit_lsn: u64,
    end_lsn: u64,
    timestamp: i64,
}

impl View for CommitBody {
    type V = Commit;

    closed spec fn view(&self) -> Commit {
        Commit {
            flags: self.flags,
            commit_lsn: self.commit_lsn,
            end_lsn: self.end_lsn,
            timestamp: self.timestamp,
        }
    }
}

impl CommitBody {
    #[inline]
    /// The LSN of the commit.
    pub fn commit_lsn(&self) -> (value: Lsn)
        ensures
            value == self@.commit_lsn,
    {
        self.commit_lsn
    }

    #[inline]
    /// The end LSN of the transaction.
    pub fn end_lsn(&self) -> (value: Lsn)
        ensures
            value == self@.end_lsn,
    {
        self.end_lsn
    }

    #[inline]
    /// Commit timestamp of the transaction. The value is in number of microseconds since
    /// PostgreSQL epoch (2000-01-01).
    pub fn timestamp(&self) -> (value: i64)
        ensures
            value == self@.timestamp,
    {
        self.timestamp
    }

    #[inline]
    /// Flags; currently unused (will be 0).
    pub fn flags(&self) -> (value: i8)
        ensures
            value == self@.flags,
    {
        self.flags
    }

    pub(crate) fn parse(buf: &mut Buffer) -> (result: Result<CommitBody, Failure>)
        requires
            old(buf).wf(),
        ensures
            final(buf).wf(),
            final(buf).continues(*old(buf)),
            outcome(result, final(buf)@) == decode_commit(old(buf)@),
    {
        Ok(
            CommitBody {
                flags: buf.read_i8()?,
                commit_lsn: buf.read_u64_be()?,
                end_lsn: buf.read_u64_be()?,
                timestamp: buf.read_i64_be()?,
            },
        )
    }
}

/// An Origin replication message
///
/// Note that there can be multiple Origin messages inside a single transaction.
#[derive(Debug)]
pub struct OriginBody {
    commit_lsn: u64,
    name: Bytes,
}

impl View for OriginBody {
    type V = Origin;

    closed spec fn view(&self) -> Origin {
        Origin {
            commit_lsn: self.commit_lsn,
            name: contents(self.name),
        }
    }
}

impl OriginBody {
    #[inline]
    /// The LSN of the commit on the origin server.
    pub fn commit_lsn(&self) -> (value: Lsn)
        ensures
            value == self@.commit_lsn,
    {
        self.commit_lsn
    }

    #[inline]
    /// Name of the origin.
    pub fn name(&self) -> (text: Result<&str, ParseError>)
        ensures
            is_text_of(text, self@.name),
    {
        get_str(self.name.deref())
    }

    pub(crate) fn parse(buf: &mut Buffer) -> (result: Result<OriginBody, Failure>)
        requires
            old(buf).wf(),
        ensures
            final(buf).wf(),
            final(buf).continues(*old(buf)),
            outcome(result, final(buf)@) == decode_origin(old(buf)@),
    {
        Ok(
            OriginBody {
                commit_lsn: buf.read_u64_be()?,
                name: buf.read_cstr()?,
            },
        )
    }
}

/// A Stream Start replication message (v2)
#[derive(Debug)]
pub struct StreamStartBody {
    xid: u32,
    is_first_segment: u8,
}

impl View for StreamStartBody {
    type V = StreamStart;

    closed spec fn view(&self) -> StreamStart {
        StreamStart {
            xid: self.xid,
            is_first_segment: self.is_first_segment,
        }
    }
}

impl StreamStartBody {
    #[inline]
    /// The transaction ID of the transaction that started the stream
    pub fn xid(&self) -> (value: u32)
        ensures
            value == self@.xid,
    {
        self.xid
    }

    #[inline]
    /// Whether this is the first segment of the stream for this XID
    pub fn is_first_segment(&self) -> (value: u8)
        ensures
            value == self@.is_first_segment,
    {
        self.is_first_segment
    }

    pub(crate) fn parse(buf: &mut Buffer) -> (result: Result<StreamStartBody, Failure>)
        requires
            old(buf).wf(),
        ensures
            final(buf).wf(),
            final(buf).continues(*old(buf)),
            outcome(result, final(buf)@) == decode_stream_start(old(buf)@),
    {
        Ok(
            StreamStartBody {
                xid: buf.read_u32_be()?,
                is_first_segment: buf.read_u8()?,
            },
        )
    }
}

/// A Stream Stop replication message (v2)
#[derive(Debug)]
pub struct StreamStopBody {
    // This message has no additional data fields
}

impl StreamStopBody {
    pub(crate) fn new() -> StreamStopBody {
        StreamStopBody {  }
    }
}

/// A Stream Commit replication message (v2)
#[derive(Debug)]
pub struct StreamCommitBody {
    xid: u32,
    flags: i8,
    commit_lsn: u64,
    end_lsn: u64,
    timestamp: i64,
}

impl View for StreamCommitBody {
    type V = StreamCommit;

    closed spec fn view(&self) -> StreamCommit {
        StreamCommit {
            xid: self.xid,
            flags: self.flags,
            commit_lsn: self.commit_lsn,
            end_lsn: self.end_lsn,
            timestamp: self.timestamp,
        }
    }
}

impl StreamCommitBody {
    #[inline]
    /// Xid of the transaction.
    pub fn xid(&self) -> (value: u32)
        ensures
            value == self@.xid,
    {
        self.xid
    }

    #[inline]
    /// Flags; currently unused.
    pub fn flags(&self) -> (value: i8)
        ensures
            value == self@.flags,
    {
        self.flags
    }

    #[inline]
    /// The LSN of the commit.
    pub fn commit_lsn(&self) -> (value: Lsn)
        ensures
            value == self@.commit_lsn,
    {
        self.commit_lsn
    }

    #[inline]
    /// The end LSN of the transaction.
    pub fn end_lsn(&self) -> (value: Lsn)
        ensures
            value == self@.end_lsn,
    {
        self.end_lsn
    }

    #[inline]
    /// Commit timestamp of the transaction. The value is in number of microseconds since
    /// PostgreSQL epoch (2000-01-01).
    pub fn timestamp(&self) -> (value: i64)
        ensures
            value == self@.timestamp,
    {
        self.timestamp
    }

    pub(crate) fn parse(buf: &mut Buffer) -> (result: Result<StreamCommitBody, Failure>)
        requires
            old(buf).wf(),
        ensures
            final(buf).wf(),
            final(buf).continues(*old(buf)),
            outcome(result, final(buf)@) == decode_stream_commit(old(buf)@),
    {
        Ok(
            StreamCommitBody {
                xid: buf.read_u32_be()?,
                flags: buf.read_i8()?,
                commit_lsn: buf.read_u64_be()?,
                end_lsn: buf.read_u64_be()?,
                timestamp: buf.read_i64_be()?,
            },
        )
    }
}

/// A Stream Abort replication message (v2)
#[derive(Debug)]
pub struct StreamAbortBody {
    xid: u32,
    subxid: u32,
}

impl View for StreamAbortBody {
    type V = StreamAbort;

    closed spec fn view(&self) -> StreamAbort {
        StreamAbort {
            xid: self.xid,
            subxid: self.subxid,
        }
    }
}

impl StreamAbortBody {
    #[inline]
    /// Xid of the transaction.
    pub fn xid(&self) -> (value: u32)
        ensures
            value == self@.xid,
    {
        self.xid
    }

    #[inline]
    /// Xid of the subtransaction (will be same as xid of the transaction for top-level
    /// transactions).
    pub fn subxid(&self) -> (value: u32)
        ensures
            value == self@.subxid,
    {
        self.subxid
    }

    pub(crate) fn parse(buf: &mut Buffer) -> (result: Result<StreamAbortBody, Failure>)
        requires
            old(buf).wf(),
        ensures
            final(buf).wf(),
            final(buf).continues(*old(buf)),
            outcome(result, final(buf)@) == decode_stream_abort(old(buf)@),
    {
        Ok(
            StreamAbortBody {
                xid: buf.read_u32_be()?,
                subxid: buf.read_u32_be()?,
            },
        )
    }
}

} // verus!

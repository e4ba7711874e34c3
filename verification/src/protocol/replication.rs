//! The messages of a replication stream.

use crate::buffer::Buffer;
use crate::error::{Failure, ParseError};
use crate::layout::{law_keep_alive_layout, law_replication_tags, law_xlog_data_layout};
use crate::model::{decode_replication, KeepAlive, Replication, XLogData};
use crate::tags::{PRIMARY_KEEPALIVE_TAG, XLOG_DATA_TAG};
use crate::trusted::contents;
use crate::wire::{be_value, to_signed, Decoded};
use bytes::Bytes;
use vstd::prelude::*;

verus! {

/// An enum representing Postgres backend replication messages.
#[non_exhaustive]
#[derive(Debug)]
pub enum ReplicationMessage<D> {
    XLogData(XLogDataBody<D>),
    PrimaryKeepAlive(PrimaryKeepAliveBody),
}

#[derive(Debug)]
pub struct XLogDataBody<D> {
    wal_start: u64,
    wal_end: u64,
    timestamp: i64,
    data: D,
}

impl<D> View for XLogDataBody<D> {
    type V = XLogData<D>;

    closed spec fn view(&self) -> XLogData<D> {
        XLogData {
            wal_start: self.wal_start,
            wal_end: self.wal_end,
            timestamp: self.timestamp,
            data: self.data,
        }
    }
}

#[derive(Debug)]
pub struct PrimaryKeepAliveBody {
    wal_end: u64,
    timestamp: i64,
    reply: u8,
}

impl View for PrimaryKeepAliveBody {
    type V = KeepAlive;

    closed spec fn view(&self) -> KeepAlive {
        KeepAlive { wal_end: self.wal_end, timestamp: self.timestamp, reply: self.reply }
    }
}

/// A piece of the log with the bytes of its data in place of their buffer.
pub open spec fn with_contents(body: XLogData<Bytes>) -> XLogData<Seq<u8>> {
    XLogData {
        wal_start: body.wal_start,
        wal_end: body.wal_end,
        timestamp: body.timestamp,
        data: contents(body.data),
    }
}

impl ReplicationMessage<Bytes> {
    /// What the message stands for.
    pub open spec fn model(self) -> Replication {
        match self {
            ReplicationMessage::XLogData(body) => Replication::XLogData(with_contents(body@)),
            ReplicationMessage::PrimaryKeepAlive(body) => Replication::PrimaryKeepAlive(body@),
        }
    }

    /// Parses a message. Bytes behind a keepalive message are passed over.
    #[inline]
    pub fn parse(buf: &Bytes) -> (result: Result<Self, ParseError>)
        ensures
            match result {
                Ok(message) => decode_replication(contents(*buf)) matches Decoded::Value(model, _)
                    && model == message.model(),
                Err(error) => decode_replication(contents(*buf)).is_rejected_with(error),
            },
            match result {
                Ok(ReplicationMessage::XLogData(body)) => {
                    let s = contents(*buf);
                    &&& s.len() >= 25 && s[0] == 0x77
                    &&& body@.wal_start == be_value(s.subrange(1, 9))
                    &&& body@.wal_end == be_value(s.subrange(9, 17))
                    &&& body@.timestamp == to_signed(be_value(s.subrange(17, 25)), 8)
                    &&& contents(body@.data) == s.skip(25)
                },
                Ok(ReplicationMessage::PrimaryKeepAlive(body)) => {
                    let s = contents(*buf);
                    &&& s.len() >= 18 && s[0] == 0x6b
                    &&& body@.wal_end == be_value(s.subrange(1, 9))
                    &&& body@.timestamp == to_signed(be_value(s.subrange(9, 17)), 8)
                    &&& body@.reply == s[17]
                },
                Err(error) => {
                    let s = contents(*buf);
                    if s.len() > 0 && s[0] != 0x77 && s[0] != 0x6b {
                        error == ParseError::UnknownMessageTag(s[0])
                    } else {
                        error == ParseError::UnexpectedEof && s.len() < 25 && (s.len() > 0 && s[0]
                            == 0x6b ==> s.len() < 18)
                    }
                },
            },
    {
        proof {
            let s = contents(*buf);
            law_replication_tags(s);
            if s.len() > 0 && s[0] == 0x77 {
                law_xlog_data_layout(s);
            }
            if s.len() > 0 && s[0] == 0x6b {
                law_keep_alive_layout(s);
            }
        }
        let mut buf = Buffer::new(buf);
        match ReplicationMessage::read(&mut buf) {
            Ok(message) => Ok(message),
            Err(failure) => Err(failure.into_error()),
        }
    }

    fn read(buf: &mut Buffer) -> (result: Result<Self, Failure>)
        requires
            old(buf).wf(),
        ensures
            final(buf).wf(),
            final(buf).continues(*old(buf)),
            match result {
                Ok(message) => decode_replication(old(buf)@) == Decoded::Value(
                    message.model(),
                    final(buf)@,
                ),
                Err(failure) => {
                    &&& decode_replication(old(buf)@) == Decoded::<Replication>::Failed(
                        failure,
                        final(buf)@,
                    )
                    &&& failure is Rejected
                },
            },
    {
        let tag = buf.read_u8()?;

        let replication_message = match tag {
            XLOG_DATA_TAG => {
                let wal_start = buf.read_u64_be()?;
                let wal_end = buf.read_u64_be()?;
                let timestamp = buf.read_i64_be()?;
                let data = buf.read_all();
                ReplicationMessage::XLogData(XLogDataBody { wal_start, wal_end, timestamp, data })
            },
            PRIMARY_KEEPALIVE_TAG => {
                let wal_end = buf.read_u64_be()?;
                let timestamp = buf.read_i64_be()?;
                let reply = buf.read_u8()?;
                ReplicationMessage::PrimaryKeepAlive(
                    PrimaryKeepAliveBody { wal_end, timestamp, reply },
                )
            },
            tag => {
                return Err(Failure::Rejected(ParseError::UnknownMessageTag(tag)));
            },
        };

        Ok(replication_message)
    }
}

impl<D> XLogDataBody<D> {
    #[inline]
    pub fn wal_start(&self) -> (value: u64)
        ensures
            value == self@.wal_start,
    {
        self.wal_start
    }

    #[inline]
    pub fn wal_end(&self) -> (value: u64)
        ensures
            value == self@.wal_end,
    {
        self.wal_end
    }

    #[inline]
    pub fn timestamp(&self) -> (value: i64)
        ensures
            value == self@.timestamp,
    {
        self.timestamp
    }

    #[inline]
    pub fn data(&self) -> (data: &D)
        ensures
            *data == self@.data,
    {
        &self.data
    }

    #[inline]
    pub fn into_data(self) -> (data: D)
        ensures
            data == self@.data,
    {
        self.data
    }

    /// Puts what `f` makes of the data in the place of the data. Where `f`
    /// fails, its error is the result.
    pub fn map_data<F, D2, E>(self, f: F) -> (result: Result<XLogDataBody<D2>, E>) where
        F: Fn(D) -> Result<D2, E>,

        requires
            call_requires(f, (self@.data,)),
        ensures
            match result {
                Ok(body) => {
                    &&& call_ensures(f, (self@.data,), Ok(body@.data))
                    &&& body@.wal_start == self@.wal_start
                    &&& body@.wal_end == self@.wal_end
                    &&& body@.timestamp == self@.timestamp
                },
                Err(error) => call_ensures(f, (self@.data,), Err(error)),
            },
    {
        let data = f(self.data)?;
        Ok(
            XLogDataBody {
                wal_start: self.wal_start,
                wal_end: self.wal_end,
                timestamp: self.timestamp,
                data,
            },
        )
    }
}

impl PrimaryKeepAliveBody {
    #[inline]
    pub fn wal_end(&self) -> (value: u64)
        ensures
            value == self@.wal_end,
    {
        self.wal_end
    }

    #[inline]
    pub fn timestamp(&self) -> (value: i64)
        ensures
            value == self@.timestamp,
    {
        self.timestamp
    }

    #[inline]
    pub fn reply(&self) -> (value: u8)
        ensures
            value == self@.reply,
    {
        self.reply
    }
}

} // verus!

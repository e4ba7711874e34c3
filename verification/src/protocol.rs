//! The messages themselves, and their parsers.

pub mod change;
pub mod logical;
pub mod relation;
pub mod replication;
pub mod transaction;
pub mod tuple;

pub use crate::protocol::change::{DeleteBody, InsertBody, TruncateBody, UpdateBody};
pub use crate::protocol::logical::LogicalReplicationMessage;
pub use crate::protocol::relation::{Column, RelationBody, ReplicaIdentity, TypeBody};
pub use crate::protocol::replication::{PrimaryKeepAliveBody, ReplicationMessage, XLogDataBody};
pub use crate::protocol::transaction::{
    BeginBody, CommitBody, OriginBody, StreamAbortBody, StreamCommitBody, StreamStartBody,
    StreamStopBody,
};
pub use crate::protocol::tuple::{Tuple, TupleData};
pub use crate::tags::{PRIMARY_KEEPALIVE_TAG, XLOG_DATA_TAG};

//! The bytes that tell messages and their parts apart.

use vstd::prelude::*;

verus! {

// Tags of replication messages.

/// `w`
pub const XLOG_DATA_TAG: u8 = 0x77;

/// `k`
pub const PRIMARY_KEEPALIVE_TAG: u8 = 0x6b;

// Tags of logical replication messages.

/// `B`
pub const BEGIN_TAG: u8 = 0x42;

/// `C`
pub const COMMIT_TAG: u8 = 0x43;

/// `O`
pub const ORIGIN_TAG: u8 = 0x4f;

/// `R`
pub const RELATION_TAG: u8 = 0x52;

/// `Y`
pub const TYPE_TAG: u8 = 0x59;

/// `I`
pub const INSERT_TAG: u8 = 0x49;

/// `U`
pub const UPDATE_TAG: u8 = 0x55;

/// `D`
pub const DELETE_TAG: u8 = 0x44;

/// `T`
pub const TRUNCATE_TAG: u8 = 0x54;

// Tags of tuples and of the column values in them.

/// `N`
pub const TUPLE_NEW_TAG: u8 = 0x4e;

/// `K`
pub const TUPLE_KEY_TAG: u8 = 0x4b;

/// `O`
pub const TUPLE_OLD_TAG: u8 = 0x4f;

/// `n`
pub const TUPLE_DATA_NULL_TAG: u8 = 0x6e;

/// `u`
pub const TUPLE_DATA_TOAST_TAG: u8 = 0x75;

/// `t`
pub const TUPLE_DATA_TEXT_TAG: u8 = 0x74;

// Tags of the messages that protocol version 2 adds.

/// `S`
pub const STREAM_START_TAG: u8 = 0x53;

/// `E`
pub const STREAM_STOP_TAG: u8 = 0x45;

/// `c`
pub const STREAM_COMMIT_TAG: u8 = 0x63;

/// `A`
pub const STREAM_ABORT_TAG: u8 = 0x41;

// Tags of replica identity settings.

/// `d`
pub const REPLICA_IDENTITY_DEFAULT_TAG: u8 = 0x64;

/// `n`
pub const REPLICA_IDENTITY_NOTHING_TAG: u8 = 0x6e;

/// `f`
pub const REPLICA_IDENTITY_FULL_TAG: u8 = 0x66;

/// `i`
pub const REPLICA_IDENTITY_INDEX_TAG: u8 = 0x69;

} // verus!

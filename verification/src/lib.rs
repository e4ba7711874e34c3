//! Messages of the PostgreSQL streaming replication protocol, parsed from raw
//! bytes with contracts that fix the result for every input.

mod buffer;
pub mod error;
pub mod laws;
pub mod layout;
mod layout_lemmas;
mod message_lemmas;
pub mod model;
pub mod protocol;
pub mod results;
pub mod tags;
pub mod text;
pub mod trusted;
pub mod wire;
mod wire_lemmas;

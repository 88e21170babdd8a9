//! Per-connection transport engine: multiplexes discrete application
//! messages over one ordered byte stream, fragmenting messages that
//! exceed the wire frame limit and reassembling them on receipt, with
//! RPC correlation and a cooperative shutdown latch.

pub mod closer;
pub mod matcher;
pub mod message;
pub mod reader;
pub mod stream;
pub mod util;
pub mod writer;

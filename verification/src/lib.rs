//! A small request/reply messaging layer: length-prefixed frames, a reusable
//! message buffer, codecs and the decisions of a single-threaded server.
pub mod protocol;
pub mod error;
pub mod memo;
pub mod service;
pub mod codec;
pub mod conn;
pub mod repl;
pub mod req;

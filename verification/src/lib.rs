//! Core logic of a chat-network weather agent: command classification,
//! query resolution with per-user memory, reply chunking, forecast
//! rendering, and the reconnecting-session state machine.
//!
//! Transport, TLS, HTTP and JSON decoding live outside this crate; the
//! functions here work on plain values and carry proved contracts.

pub mod chars;
pub mod chunker;
pub mod dispatcher;
pub mod forecast;
pub mod memory;
pub mod numparse;
pub mod pipeline;
pub mod resolver;
pub mod strutil;
pub mod supervisor;

//! Client-side engine for consuming a partitioned event stream from a
//! subscription-oriented broker: line-oriented batch decoding, bounded
//! dispatch with drop-on-full backpressure, per-partition checkpoint
//! commits, reconnection backoff, and the error taxonomy that drives
//! retry-versus-fatal decisions. Transport, token acquisition and event
//! payload semantics are external capabilities; the engine's own logic
//! is specified and verified here.

pub mod errors;
pub mod support;
pub mod cursor;
pub mod backoff;
pub mod dispatch;
pub mod committer;
pub mod metrics;
pub mod reader;
pub mod connection;
pub mod engine;

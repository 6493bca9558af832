//! A bridge between a line-oriented JSON-RPC client and a remote JSON-RPC
//! server reached over HTTP, with session continuity and event streams.

pub mod text;
pub mod stream;
pub mod bridge;
pub mod envelope;

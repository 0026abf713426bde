//! The muchsync protocol: a bidirectional, line-delimited JSON RPC protocol
//! spoken between two peers over any duplex byte stream.
//!
//! The crate holds the message model, the per-flow state machine of the
//! responder, the session multiplexer and the framing of payloads. It does
//! no input or output itself: whoever drives it reads and writes the bytes,
//! waits, and calls the handlers. Every function carries a contract that
//! Verus proves.

pub mod error;
pub mod flow;
pub mod operation;
pub mod serde;
pub mod services;
pub mod session;
pub mod transport;

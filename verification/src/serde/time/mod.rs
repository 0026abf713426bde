//! Points in time on the wire.

pub mod nanos;

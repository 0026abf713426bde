//! Conversions between the values of the program and their form on the
//! wire.

pub mod time;

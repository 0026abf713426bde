//! A point in time as unsigned 64-bit nanoseconds since the Unix epoch.

use vstd::prelude::*;

pub mod optional;

verus! {

/// The point in time that the wire's nanoseconds stand for, as a Unix
/// timestamp in nanoseconds. Every value of the wire is a point in time.
pub fn deserialize(ts: u64) -> (unix_timestamp_nanos: i128)
    ensures
        unix_timestamp_nanos == ts,
{
    ts as i128
}

/// The nanoseconds that go on the wire for a point in time, given as a Unix
/// timestamp in nanoseconds. A timestamp that 64 bits do not hold is cut
/// down to its lower 64 bits.
pub fn serialize(unix_timestamp_nanos: i128) -> (ts: u64)
    ensures
        ts == unix_timestamp_nanos as u64,
        0 <= unix_timestamp_nanos <= u64::MAX ==> ts == unix_timestamp_nanos,
{
    #[verifier::truncate]
    (unix_timestamp_nanos as u64)
}

} // verus!

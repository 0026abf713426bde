//! A point in time that may be absent, as unsigned 64-bit nanoseconds since
//! the Unix epoch.

use vstd::prelude::*;

verus! {

/// A point in time that unsigned 64-bit nanoseconds since the Unix epoch
/// do not hold.
#[derive(Clone, Copy, Debug, PartialEq, Eq, Structural)]
pub struct TimestampOutOfRange {
    /// The Unix timestamp in nanoseconds that does not fit.
    pub unix_timestamp_nanos: i128,
}

impl TimestampOutOfRange {
    /// What is said of a point in time that does not fit.
    pub open spec fn spec_message() -> Seq<char> {
        "OffsetDateTime does not fit in u64"@
    }

    /// The message for a point in time that does not fit.
    pub fn message(&self) -> (text: String)
        ensures
            text@ == Self::spec_message(),
    {
        String::from_str("OffsetDateTime does not fit in u64")
    }
}

/// The point in time that the wire's value stands for, if it holds one.
pub fn deserialize(ts: Option<u64>) -> (unix_timestamp_nanos: Option<i128>)
    ensures
        unix_timestamp_nanos == (match ts {
            Some(nanos) => Some(nanos as i128),
            None => None,
        }),
{
    match ts {
        Some(nanos) => Some(nanos as i128),
        None => None,
    }
}

/// The value that goes on the wire for a point in time that may be absent.
/// A timestamp that 64 bits do not hold is refused.
pub fn serialize(option: Option<i128>) -> (result: Result<Option<u64>, TimestampOutOfRange>)
    ensures
        result == (match option {
            None => Ok(None),
            Some(nanos) => if 0 <= nanos <= u64::MAX {
                Ok(Some(nanos as u64))
            } else {
                Err(TimestampOutOfRange { unix_timestamp_nanos: nanos })
            },
        }),
{
    match option {
        None => Ok(None),
        Some(nanos) => {
            if 0 <= nanos && nanos <= u64::MAX as i128 {
                Ok(Some(nanos as u64))
            } else {
                Err(TimestampOutOfRange { unix_timestamp_nanos: nanos })
            }
        },
    }
}

} // verus!

use vstd::prelude::*;

use crate::errors::ErrorCode;

verus! {

/// Converts a signed Unix timestamp to an unsigned one; a negative timestamp
/// is refused.
pub fn to_timestamp_u64(t: i64) -> (r: Result<u64, ErrorCode>)
    ensures
        t >= 0 ==> r == Ok::<u64, ErrorCode>(t as u64),
        t < 0 ==> r == Err::<u64, ErrorCode>(ErrorCode::InvalidTimestampConversion),
{
    match u64::try_from(t) {
        Ok(v) => Ok(v),
        Err(_) => Err(ErrorCode::InvalidTimestampConversion),
    }
}

} // verus!

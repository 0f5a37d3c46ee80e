//! The system clock, read through chrono, and the time elapsed since the
//! reference new moon.
use crate::age::REFERENCE_NEW_MOON;
use chrono::Local;
use vstd::prelude::*;

verus! {

/// Relies on chrono's `Local::now` and `DateTime::timestamp`: the seconds
/// since the Unix epoch at the moment of the call. chrono computes the
/// timestamp from a day number held in an `i32` and the seconds since
/// midnight, so it lies within 2^48 of zero.
#[verifier::external_body]
fn get_timestamp() -> (r: i64)
    ensures
        -0x1_0000_0000_0000 < r < 0x1_0000_0000_0000,
{
    Local::now().timestamp()
}

/// The seconds elapsed from the reference new moon to `timestamp`.
pub fn elapsed_since_reference(timestamp: i64) -> (r: i64)
    requires
        timestamp >= i64::MIN + REFERENCE_NEW_MOON,
    ensures
        r == timestamp - REFERENCE_NEW_MOON,
{
    timestamp - REFERENCE_NEW_MOON
}

/// The seconds elapsed from the reference new moon to now, as the system
/// clock gives the time.
pub fn time_since_nm() -> (r: i64)
    ensures
        -0x1_0000_0000_0000 - REFERENCE_NEW_MOON < r < 0x1_0000_0000_0000 - REFERENCE_NEW_MOON,
{
    let timestamp = get_timestamp();
    elapsed_since_reference(timestamp)
}

} // verus!

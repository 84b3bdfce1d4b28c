use vstd::prelude::*;

verus! {

/// Seconds since the epoch of the earliest instant chrono can hold (January 1 of year -262143, 00:00:00 UTC).
pub const MIN_TIMESTAMP: i64 = -8_334_601_228_800;

/// Seconds since the epoch of the latest instant chrono can hold (December 31 of year 262142, 23:59:59 UTC).
pub const MAX_TIMESTAMP: i64 = 8_210_266_876_799;

/// An instant, as seconds since the epoch, that lies in the representable range.
pub open spec fn valid_instant(secs: int) -> bool {
    MIN_TIMESTAMP <= secs <= MAX_TIMESTAMP
}

/// Relies on chrono's `DateTime::from_timestamp(secs, 0)`: it returns `Some`
/// exactly when the day `secs` falls on lies between `NaiveDate::MIN` and
/// `NaiveDate::MAX`, which is the range above.
#[verifier::external_body]
fn chrono_accepts(secs: i64) -> (r: bool)
    ensures
        r == valid_instant(secs as int),
{
    chrono::DateTime::from_timestamp(secs, 0).is_some()
}

/// Whether `secs` (which may lie far outside `i64`) names an instant.
pub fn is_valid_instant(secs: i128) -> (r: bool)
    ensures
        r == valid_instant(secs as int),
{
    if secs < i64::MIN as i128 || secs > i64::MAX as i128 {
        false
    } else {
        chrono_accepts(secs as i64)
    }
}

} // verus!

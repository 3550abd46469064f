//! Rate limit window durations. Only three fixed window lengths exist, by
//! design: an operator cannot define a pathologically small window that would
//! functionally disable rate limiting.

use vstd::prelude::*;

verus! {

/// A one-minute window.
pub const ONE_MINUTE: i64 = 60;

/// A one-hour window.
pub const ONE_HOUR: i64 = 3600;

/// A one-day window.
pub const ONE_DAY: i64 = 86400;

/// A window length is valid iff it is exactly one of the three fixed
/// durations.
pub open spec fn spec_is_valid(window: i64) -> bool {
    window == ONE_MINUTE || window == ONE_HOUR || window == ONE_DAY
}

/// Check that a window length is one of the three permitted durations.
pub fn is_valid(window: i64) -> (r: bool)
    ensures
        r == spec_is_valid(window),
{
    window == ONE_MINUTE || window == ONE_HOUR || window == ONE_DAY
}

} // verus!

//! Fixed-window rate limiter. Usage is counted against a quota that fully
//! resets every `window` seconds. The decision logic here is a pure
//! projection; persisting a reset is the caller's choice (read-only
//! validation never persists it, usage recording does).

use vstd::prelude::*;

verus! {

/// Seconds elapsed since the window started, clamped at zero so that clock
/// skew can never produce a negative elapsed time.
pub open spec fn spec_elapsed(now: i64, window_start: i64) -> int {
    if now >= window_start {
        now - window_start
    } else {
        0
    }
}

/// The window has fully elapsed: a usage-recording operation would reset the
/// counter before admitting.
pub open spec fn spec_window_expired(now: i64, window_start: i64, window: i64) -> bool {
    spec_elapsed(now, window_start) >= window
}

/// The usage count the current check sees: zero if the window has fully
/// elapsed (the counter would be reset), the stored count otherwise.
pub open spec fn spec_effective_usage(
    now: i64,
    window_start: i64,
    window: i64,
    window_usage: u32,
) -> u32 {
    if spec_window_expired(now, window_start, window) {
        0
    } else {
        window_usage
    }
}

/// The admission test: an operation is admitted iff the post-reset usage
/// count is strictly below the limit.
pub open spec fn spec_admitted(
    now: i64,
    window_start: i64,
    window: i64,
    window_usage: u32,
    limit: u32,
) -> bool {
    spec_effective_usage(now, window_start, window, window_usage) < limit
}

/// Decide whether the window starting at `window_start` has fully elapsed
/// at `now`. The subtraction is widened so that no clock reading, however
/// skewed, can overflow.
pub fn window_expired(now: i64, window_start: i64, window: i64) -> (r: bool)
    ensures
        r == spec_window_expired(now, window_start, window),
{
    let elapsed: i128 = now as i128 - window_start as i128;
    let clamped: i128 = if elapsed < 0 {
        0
    } else {
        elapsed
    };
    clamped >= window as i128
}

/// Compute the usage count effective at `now`: the stored count, or zero if
/// the window starting at `window_start` has fully elapsed.
pub fn effective_usage(now: i64, window_start: i64, window: i64, window_usage: u32) -> (r: u32)
    ensures
        r == spec_effective_usage(now, window_start, window, window_usage),
{
    if window_expired(now, window_start, window) {
        0
    } else {
        window_usage
    }
}

/// Decide admission at `now` without mutating anything.
pub fn admitted(now: i64, window_start: i64, window: i64, window_usage: u32, limit: u32) -> (r:
    bool)
    ensures
        r == spec_admitted(now, window_start, window, window_usage, limit),
{
    effective_usage(now, window_start, window, window_usage) < limit
}

} // verus!

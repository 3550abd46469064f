use vstd::prelude::*;

verus! {

/// Every way an operation can be rejected. Each rejection is local,
/// synchronous, and leaves all records untouched; callers can branch on the
/// exact variant (for example "create a new key on expiry" versus "back off
/// on rate limit").
#[derive(Clone, Copy, Debug, PartialEq, Eq, Structural)]
pub enum ApiKeyError {
    /// A name or label is empty or longer than 32 characters.
    InvalidName,
    /// A configuration value is out of range (zero rate limit, `max_keys`
    /// outside 1..=10_000, or shrinking `max_keys` below the live count).
    InvalidConfig,
    /// A rate limit window is not one of 60, 3600, or 86400 seconds.
    InvalidWindow,
    /// The service already has `max_keys` active keys.
    MaxKeysReached,
    /// The key has been revoked.
    KeyRevoked,
    /// The key's expiry time has passed.
    KeyExpired,
    /// The key's usage quota for the current window is exhausted.
    RateLimitExceeded,
    /// A supplied expiry timestamp is not strictly in the future.
    InvalidExpiry,
    /// The key is already revoked, so it cannot be revoked or rotated again.
    AlreadyRevoked,
    /// The caller is not the stored owner of the service.
    InvalidService,
    /// A counter increment or decrement would overflow or underflow.
    Overflow,
    /// A permission bitmask has bits set outside the defined capability set.
    InvalidPermissions,
    /// The key does not hold every requested capability.
    InsufficientPermissions,
}

} // verus!

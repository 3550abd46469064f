//! Notification records. After every successful mutating operation the engine
//! hands back exactly one of these (rotation hands back two: one revocation,
//! one creation); the host forwards them to its audit or indexing sink.
//! Emission is fire-and-forget and never affects an operation's outcome.
//!
//! The `service` field always carries the owning service's identifier, which
//! is the owner identity the record store scopes its records by.

use vstd::prelude::*;

verus! {

/// A new service was initialized.
#[derive(Clone, Debug)]
pub struct ServiceCreated {
    pub service: [u8; 32],
    pub owner: [u8; 32],
    pub name: String,
    pub max_keys: u32,
    pub rate_limit_window: i64,
}

/// A service's configuration was updated; carries the resulting settings.
#[derive(Clone, Debug)]
pub struct ServiceUpdated {
    pub service: [u8; 32],
    pub name: String,
    pub max_keys: u32,
    pub default_rate_limit: u32,
    pub rate_limit_window: i64,
}

/// A new key was created, directly or as the new half of a rotation.
#[derive(Clone, Debug)]
pub struct KeyCreated {
    pub service: [u8; 32],
    pub key_hash: [u8; 32],
    pub label: String,
    pub permissions: u16,
    pub rate_limit: u32,
    pub expires_at: i64,
}

/// A usage event was admitted and recorded; carries the updated counters.
#[derive(Clone, Debug)]
pub struct UsageRecorded {
    pub service: [u8; 32],
    pub key_hash: [u8; 32],
    pub window_usage: u32,
    pub total_usage: u64,
}

/// A read-only validation succeeded; `remaining_usage` is the quota left in
/// the projected (possibly reset) current window.
#[derive(Clone, Debug)]
pub struct KeyValidated {
    pub service: [u8; 32],
    pub key_hash: [u8; 32],
    pub permissions: u16,
    pub remaining_usage: u32,
}

/// A permission check succeeded: the key holds every required capability.
#[derive(Clone, Debug)]
pub struct PermissionChecked {
    pub service: [u8; 32],
    pub key_hash: [u8; 32],
    pub required: u16,
    pub granted: bool,
}

/// A key was revoked, directly or as the old half of a rotation.
#[derive(Clone, Debug)]
pub struct KeyRevoked {
    pub service: [u8; 32],
    pub key_hash: [u8; 32],
    pub total_usage: u64,
}

/// A key's permissions, rate limit, or expiry were updated in place.
#[derive(Clone, Debug)]
pub struct KeyUpdated {
    pub service: [u8; 32],
    pub key_hash: [u8; 32],
    pub permissions: u16,
    pub rate_limit: u32,
    pub expires_at: i64,
}

/// A key record was deleted.
#[derive(Clone, Debug)]
pub struct KeyClosed {
    pub service: [u8; 32],
    pub key_hash: [u8; 32],
    pub total_usage: u64,
}

} // verus!

//! The key record, its lifecycle state machine (Active, Revoked, Closed),
//! and the operations on it.

use vstd::prelude::*;
use crate::errors::ApiKeyError;
use crate::events::KeyClosed;
use crate::events::KeyCreated;
use crate::events::KeyRevoked;
use crate::events::KeyUpdated;
use crate::events::KeyValidated;
use crate::events::PermissionChecked;
use crate::events::UsageRecorded;
use crate::limiter;
use crate::permissions;
use crate::service::ServiceConfig;
use crate::service::same_identity;
use crate::windows;

verus! {

/// A single credential record. The store scopes it by the composite key
/// (service owner identity, fingerprint); the raw secret never appears here,
/// only its fixed-size fingerprint.
#[derive(Debug)]
pub struct ApiKey {
    /// Identifier of the owning service (the service owner's identity).
    pub service: [u8; 32],
    /// 256-bit opaque fingerprint of the real secret, unique per service.
    pub key_hash: [u8; 32],
    /// Human-readable tag, 1-32 characters.
    pub label: String,
    /// Capability bitmask; only defined bits may be set.
    pub permissions: u16,
    /// Requests allowed per window.
    pub rate_limit: u32,
    /// Window length in seconds; frozen from the service at creation.
    pub rate_limit_window: i64,
    /// When the live fixed window started.
    pub window_start: i64,
    /// Usage recorded in the live window.
    pub window_usage: u32,
    /// All-time usage; never decremented.
    pub total_usage: u64,
    /// Creation timestamp; immutable.
    pub created_at: i64,
    /// Most recent admitted usage (0 = never used).
    pub last_used_at: i64,
    /// Expiry timestamp (0 = never expires).
    pub expires_at: i64,
    /// Once true, terminal: the key can only be closed.
    pub revoked: bool,
}

impl ApiKey {
    /// Well-formedness: established at creation and preserved by every
    /// operation. `window_usage <= rate_limit` is deliberately absent: it
    /// need not hold at rest (an update may lower the limit below the live
    /// count), only immediately after an admitted usage recording.
    pub open spec fn wf(self) -> bool {
        &&& 1 <= self.label@.len() <= 32
        &&& permissions::spec_is_valid(self.permissions)
        &&& self.rate_limit > 0
        &&& windows::spec_is_valid(self.rate_limit_window)
    }

    /// The guard run by every operation that reads or mutates an existing
    /// key: revocation is checked first, then expiry, in that fixed order.
    /// An `expires_at` of 0 means the key never expires.
    pub open spec fn spec_guard(self, now: i64) -> Option<ApiKeyError> {
        if self.revoked {
            Some(ApiKeyError::KeyRevoked)
        } else if self.expires_at != 0 && now >= self.expires_at {
            Some(ApiKeyError::KeyExpired)
        } else {
            None
        }
    }

    /// The usage count a check at `now` sees for this key.
    pub open spec fn spec_effective_usage(self, now: i64) -> u32 {
        limiter::spec_effective_usage(
            now,
            self.window_start,
            self.rate_limit_window,
            self.window_usage,
        )
    }

    /// Whether a usage-recording operation at `now` would be admitted by the
    /// rate limiter.
    pub open spec fn spec_admitted(self, now: i64) -> bool {
        limiter::spec_admitted(
            now,
            self.window_start,
            self.rate_limit_window,
            self.window_usage,
            self.rate_limit,
        )
    }

    /// The rejection, if any, of a usage recording at `now`: the lifecycle
    /// guard first, then the rate limiter, then the all-time counter.
    pub open spec fn spec_record_usage_error(self, now: i64) -> Option<ApiKeyError> {
        match self.spec_guard(now) {
            Some(e) => Some(e),
            None => if !self.spec_admitted(now) {
                Some(ApiKeyError::RateLimitExceeded)
            } else if self.total_usage == u64::MAX {
                Some(ApiKeyError::Overflow)
            } else {
                None
            },
        }
    }

    /// The key state after an admitted usage recording at `now`: the window
    /// is reset first if it has fully elapsed, then the live and all-time
    /// counters each grow by one and the last-use stamp is set.
    pub open spec fn spec_record_usage_post(self, now: i64) -> ApiKey {
        ApiKey {
            window_start: if limiter::spec_window_expired(
                now,
                self.window_start,
                self.rate_limit_window,
            ) {
                now
            } else {
                self.window_start
            },
            window_usage: (self.spec_effective_usage(now) + 1) as u32,
            total_usage: (self.total_usage + 1) as u64,
            last_used_at: now,
            ..self
        }
    }

    /// The outcome of a read-only validation at `now`: the lifecycle guard,
    /// then the admission test, with the remaining quota computed under the
    /// projected (possibly reset) window — exactly what an immediately
    /// following usage recording would see.
    pub open spec fn spec_validate(self, now: i64) -> Result<KeyValidated, ApiKeyError> {
        match self.spec_guard(now) {
            Some(e) => Err(e),
            None => if self.spec_effective_usage(now) < self.rate_limit {
                Ok(
                    KeyValidated {
                        service: self.service,
                        key_hash: self.key_hash,
                        permissions: self.permissions,
                        remaining_usage: (self.rate_limit - self.spec_effective_usage(now)) as u32,
                    },
                )
            } else {
                Err(ApiKeyError::RateLimitExceeded)
            },
        }
    }

    /// The rejection, if any, of a permission check at `now`: the lifecycle
    /// guard, then the bitmask test. The rate limiter plays no part here.
    pub open spec fn spec_check_permission_error(self, required: u16, now: i64) -> Option<
        ApiKeyError,
    > {
        match self.spec_guard(now) {
            Some(e) => Some(e),
            None => if permissions::spec_check(self.permissions, required) {
                None
            } else {
                Some(ApiKeyError::InsufficientPermissions)
            },
        }
    }

    /// The rate limit a new key freezes: the requested override if one is
    /// given, the service's default otherwise.
    pub open spec fn spec_effective_rate_limit(
        service: ServiceConfig,
        rate_limit: Option<u32>,
    ) -> u32 {
        match rate_limit {
            Some(l) => l,
            None => service.default_rate_limit,
        }
    }

    /// The rejection, if any, of a key creation, checked in a fixed order:
    /// label, permission mask, service capacity, expiry, rate limit,
    /// counter overflow.
    pub open spec fn spec_create_key_error(
        service: ServiceConfig,
        label: Seq<char>,
        permissions_mask: u16,
        rate_limit: Option<u32>,
        expires_at: Option<i64>,
        now: i64,
    ) -> Option<ApiKeyError> {
        if label.len() < 1 || label.len() > 32 {
            Some(ApiKeyError::InvalidName)
        } else if !permissions::spec_is_valid(permissions_mask) {
            Some(ApiKeyError::InvalidPermissions)
        } else if service.active_keys >= service.max_keys {
            Some(ApiKeyError::MaxKeysReached)
        } else if expires_at matches Some(exp) && exp <= now {
            Some(ApiKeyError::InvalidExpiry)
        } else if Self::spec_effective_rate_limit(service, rate_limit) == 0 {
            Some(ApiKeyError::InvalidConfig)
        } else if service.total_keys_created == u32::MAX || service.active_keys == u32::MAX {
            Some(ApiKeyError::Overflow)
        } else {
            None
        }
    }

    /// Create a new Active key under `service`. Only the service owner may
    /// create keys. The service's active-key cap is re-checked here, at the
    /// moment of creation; a requested expiry must be strictly in the
    /// future (`None` means the key never expires); and the permission mask
    /// is always validated strictly — a mask with undefined bits is
    /// rejected rather than silently granting meaningless capabilities. The
    /// key freezes a copy of the service's window, and of its default rate
    /// limit when no override is given.
    pub fn create_key(
        service: &mut ServiceConfig,
        caller: &[u8; 32],
        key_hash: [u8; 32],
        label: String,
        permissions_mask: u16,
        rate_limit: Option<u32>,
        expires_at: Option<i64>,
        now: i64,
    ) -> (r: Result<(ApiKey, KeyCreated), ApiKeyError>)
        ensures
            *caller != old(service).owner ==> r == Err::<(ApiKey, KeyCreated), ApiKeyError>(
                ApiKeyError::InvalidService,
            ) && *final(service) == *old(service),
            *caller == old(service).owner ==> (match Self::spec_create_key_error(
                *old(service),
                label@,
                permissions_mask,
                rate_limit,
                expires_at,
                now,
            ) {
                Some(e) => r == Err::<(ApiKey, KeyCreated), ApiKeyError>(e) && *final(service)
                    == *old(service),
                None => {
                    &&& r is Ok
                    &&& *final(service) == (ServiceConfig {
                        total_keys_created: (old(service).total_keys_created + 1) as u32,
                        active_keys: (old(service).active_keys + 1) as u32,
                        ..*old(service)
                    })
                    &&& (old(service).wf() ==> final(service).wf())
                    &&& (r matches Ok(p) ==> {
                        let k = p.0;
                        let ev = p.1;
                        &&& k.service == old(service).owner
                        &&& k.key_hash == key_hash
                        &&& k.label == label
                        &&& k.permissions == permissions_mask
                        &&& k.rate_limit == Self::spec_effective_rate_limit(
                            *old(service),
                            rate_limit,
                        )
                        &&& k.rate_limit_window == old(service).rate_limit_window
                        &&& k.window_start == now
                        &&& k.window_usage == 0
                        &&& k.total_usage == 0
                        &&& k.created_at == now
                        &&& k.last_used_at == 0
                        &&& k.expires_at == (match expires_at {
                            Some(e) => e,
                            None => 0,
                        })
                        &&& k.revoked == false
                        &&& (old(service).wf() ==> k.wf())
                        &&& ev.service == old(service).owner
                        &&& ev.key_hash == key_hash
                        &&& ev.label@ == label@
                        &&& ev.permissions == permissions_mask
                        &&& ev.rate_limit == k.rate_limit
                        &&& ev.expires_at == k.expires_at
                    })
                },
            }),
    {
        if !same_identity(caller, &service.owner) {
            return Err(ApiKeyError::InvalidService);
        }
        let label_len = label.as_str().unicode_len();
        if label_len < 1 || label_len > 32 {
            return Err(ApiKeyError::InvalidName);
        }
        if !permissions::is_valid(permissions_mask) {
            return Err(ApiKeyError::InvalidPermissions);
        }
        if service.active_keys >= service.max_keys {
            return Err(ApiKeyError::MaxKeysReached);
        }
        if let Some(exp) = expires_at {
            if exp <= now {
                return Err(ApiKeyError::InvalidExpiry);
            }
        }
        let effective_rate_limit = match rate_limit {
            Some(l) => l,
            None => service.default_rate_limit,
        };
        if effective_rate_limit == 0 {
            return Err(ApiKeyError::InvalidConfig);
        }
        if service.total_keys_created == u32::MAX || service.active_keys == u32::MAX {
            return Err(ApiKeyError::Overflow);
        }
        let ev = KeyCreated {
            service: service.owner,
            key_hash,
            label: label.clone(),
            permissions: permissions_mask,
            rate_limit: effective_rate_limit,
            expires_at: match expires_at {
                Some(e) => e,
                None => 0,
            },
        };
        let api_key = ApiKey {
            service: service.owner,
            key_hash,
            label,
            permissions: permissions_mask,
            rate_limit: effective_rate_limit,
            rate_limit_window: service.rate_limit_window,
            window_start: now,
            window_usage: 0,
            total_usage: 0,
            created_at: now,
            last_used_at: 0,
            expires_at: match expires_at {
                Some(e) => e,
                None => 0,
            },
            revoked: false,
        };
        service.total_keys_created = service.total_keys_created + 1;
        service.active_keys = service.active_keys + 1;
        Ok((api_key, ev))
    }

    /// Record one usage event. Only the service owner may record usage. The
    /// key must pass the lifecycle guard and the admission test; the stored
    /// window is then reset if it has fully elapsed, both usage counters
    /// grow by one, and the last-use stamp is set to `now`. Any rejection
    /// leaves the key untouched.
    pub fn record_usage(
        &mut self,
        service: &ServiceConfig,
        caller: &[u8; 32],
        now: i64,
    ) -> (r: Result<UsageRecorded, ApiKeyError>)
        ensures
            *caller != service.owner ==> r == Err::<UsageRecorded, ApiKeyError>(
                ApiKeyError::InvalidService,
            ) && *final(self) == *old(self),
            *caller == service.owner ==> (match old(self).spec_record_usage_error(now) {
                Some(e) => r == Err::<UsageRecorded, ApiKeyError>(e) && *final(self) == *old(self),
                None => {
                    &&& r is Ok
                    &&& *final(self) == old(self).spec_record_usage_post(now)
                    &&& final(self).window_usage <= final(self).rate_limit
                    &&& old(self).wf() ==> final(self).wf()
                    &&& (r matches Ok(ev) ==> {
                        &&& ev.service == old(self).service
                        &&& ev.key_hash == old(self).key_hash
                        &&& ev.window_usage == final(self).window_usage
                        &&& ev.total_usage == final(self).total_usage
                    })
                },
            }),
    {
        if !same_identity(caller, &service.owner) {
            return Err(ApiKeyError::InvalidService);
        }
        if self.revoked {
            return Err(ApiKeyError::KeyRevoked);
        }
        if self.expires_at != 0 && now >= self.expires_at {
            return Err(ApiKeyError::KeyExpired);
        }
        let expired = limiter::window_expired(now, self.window_start, self.rate_limit_window);
        let effective: u32 = if expired {
            0
        } else {
            self.window_usage
        };
        if effective >= self.rate_limit {
            return Err(ApiKeyError::RateLimitExceeded);
        }
        if self.total_usage == u64::MAX {
            return Err(ApiKeyError::Overflow);
        }
        // Every check has passed: commit the whole multi-field update.
        if expired {
            self.window_start = now;
        }
        self.window_usage = effective + 1;
        self.total_usage = self.total_usage + 1;
        self.last_used_at = now;
        Ok(
            UsageRecorded {
                service: self.service,
                key_hash: self.key_hash,
                window_usage: self.window_usage,
                total_usage: self.total_usage,
            },
        )
    }

    /// Validate the key without recording usage: a pure projection that any
    /// caller may run. The result is fully determined by the stored key and
    /// `now`, so repeated calls agree, and the borrow is shared, so no call
    /// can mutate stored state.
    pub fn validate_key(&self, now: i64) -> (r: Result<KeyValidated, ApiKeyError>)
        ensures
            r == self.spec_validate(now),
    {
        if self.revoked {
            return Err(ApiKeyError::KeyRevoked);
        }
        if self.expires_at != 0 && now >= self.expires_at {
            return Err(ApiKeyError::KeyExpired);
        }
        let effective = limiter::effective_usage(
            now,
            self.window_start,
            self.rate_limit_window,
            self.window_usage,
        );
        if effective >= self.rate_limit {
            return Err(ApiKeyError::RateLimitExceeded);
        }
        Ok(
            KeyValidated {
                service: self.service,
                key_hash: self.key_hash,
                permissions: self.permissions,
                remaining_usage: self.rate_limit - effective,
            },
        )
    }

    /// Check that the key holds every capability in `required_permission`.
    /// Read-only and open to any caller; checks revocation and expiry but
    /// not the rate limit.
    pub fn check_permission(&self, required_permission: u16, now: i64) -> (r: Result<
        PermissionChecked,
        ApiKeyError,
    >)
        ensures
            match self.spec_check_permission_error(required_permission, now) {
                Some(e) => r == Err::<PermissionChecked, ApiKeyError>(e),
                None => r == Ok::<PermissionChecked, ApiKeyError>(
                    PermissionChecked {
                        service: self.service,
                        key_hash: self.key_hash,
                        required: required_permission,
                        granted: true,
                    },
                ),
            },
    {
        if self.revoked {
            return Err(ApiKeyError::KeyRevoked);
        }
        if self.expires_at != 0 && now >= self.expires_at {
            return Err(ApiKeyError::KeyExpired);
        }
        if !permissions::check(self.permissions, required_permission) {
            return Err(ApiKeyError::InsufficientPermissions);
        }
        Ok(
            PermissionChecked {
                service: self.service,
                key_hash: self.key_hash,
                required: required_permission,
                granted: true,
            },
        )
    }

    /// The rejection, if any, of a direct revocation: a key can be revoked
    /// exactly once, and the service's active count must have room to come
    /// down (it always does when the records are consistent).
    pub open spec fn spec_revoke_key_error(self, service: ServiceConfig) -> Option<ApiKeyError> {
        if self.revoked {
            Some(ApiKeyError::AlreadyRevoked)
        } else if service.active_keys == 0 {
            Some(ApiKeyError::Overflow)
        } else {
            None
        }
    }

    /// Revoke the key. Only the service owner may revoke. Irreversible: the
    /// revoked flag is terminal, and the owning service's active count
    /// comes down by one. Everything else about the key is kept, so its
    /// all-time usage stays readable until the record is closed.
    pub fn revoke_key(&mut self, service: &mut ServiceConfig, caller: &[u8; 32]) -> (r: Result<
        KeyRevoked,
        ApiKeyError,
    >)
        ensures
            *caller != old(service).owner ==> r == Err::<KeyRevoked, ApiKeyError>(
                ApiKeyError::InvalidService,
            ) && *final(self) == *old(self) && *final(service) == *old(service),
            *caller == old(service).owner ==> (match old(self).spec_revoke_key_error(
                *old(service),
            ) {
                Some(e) => r == Err::<KeyRevoked, ApiKeyError>(e) && *final(self) == *old(self)
                    && *final(service) == *old(service),
                None => {
                    &&& r == Ok::<KeyRevoked, ApiKeyError>(
                        KeyRevoked {
                            service: old(service).owner,
                            key_hash: old(self).key_hash,
                            total_usage: old(self).total_usage,
                        },
                    )
                    &&& *final(self) == (ApiKey { revoked: true, ..*old(self) })
                    &&& *final(service) == (ServiceConfig {
                        active_keys: (old(service).active_keys - 1) as u32,
                        ..*old(service)
                    })
                    &&& (old(self).wf() ==> final(self).wf())
                    &&& (old(service).wf() ==> final(service).wf())
                },
            }),
    {
        if !same_identity(caller, &service.owner) {
            return Err(ApiKeyError::InvalidService);
        }
        if self.revoked {
            return Err(ApiKeyError::AlreadyRevoked);
        }
        if service.active_keys == 0 {
            return Err(ApiKeyError::Overflow);
        }
        self.revoked = true;
        service.active_keys = service.active_keys - 1;
        Ok(
            KeyRevoked {
                service: service.owner,
                key_hash: self.key_hash,
                total_usage: self.total_usage,
            },
        )
    }

    /// The rejection, if any, of a sparse key update: the lifecycle guard
    /// first, then each supplied field validated as at creation. An expiry
    /// of exactly 0 is the deliberate sentinel carve-out: it clears the
    /// expiry instead of being rejected as non-future.
    pub open spec fn spec_update_key_error(
        self,
        permissions_mask: Option<u16>,
        rate_limit: Option<u32>,
        expires_at: Option<i64>,
        now: i64,
    ) -> Option<ApiKeyError> {
        match self.spec_guard(now) {
            Some(e) => Some(e),
            None => if permissions_mask matches Some(p) && !permissions::spec_is_valid(p) {
                Some(ApiKeyError::InvalidPermissions)
            } else if rate_limit matches Some(l) && l == 0 {
                Some(ApiKeyError::InvalidConfig)
            } else if expires_at matches Some(e) && e != 0 && e <= now {
                Some(ApiKeyError::InvalidExpiry)
            } else {
                None
            },
        }
    }

    /// The key state after an accepted sparse update: each supplied field
    /// replaces the stored one (an expiry of 0 clears any previous expiry),
    /// absent fields keep their value, and the counters, window state, and
    /// identity fields never change.
    pub open spec fn spec_update_key_post(
        self,
        permissions_mask: Option<u16>,
        rate_limit: Option<u32>,
        expires_at: Option<i64>,
    ) -> ApiKey {
        ApiKey {
            permissions: match permissions_mask {
                Some(p) => p,
                None => self.permissions,
            },
            rate_limit: match rate_limit {
                Some(l) => l,
                None => self.rate_limit,
            },
            expires_at: match expires_at {
                Some(e) => e,
                None => self.expires_at,
            },
            ..self
        }
    }

    /// Apply a sparse update to the key's permissions, rate limit, or
    /// expiry. Only the service owner may update, and only a key that
    /// passes the lifecycle guard. The permission mask is validated
    /// strictly, as at creation; setting the expiry to the sentinel 0
    /// clears it (the key becomes non-expiring). Every supplied field is
    /// validated before any is written, so a rejected update leaves the
    /// key untouched.
    pub fn update_key(
        &mut self,
        service: &ServiceConfig,
        caller: &[u8; 32],
        permissions_mask: Option<u16>,
        rate_limit: Option<u32>,
        expires_at: Option<i64>,
        now: i64,
    ) -> (r: Result<KeyUpdated, ApiKeyError>)
        ensures
            *caller != service.owner ==> r == Err::<KeyUpdated, ApiKeyError>(
                ApiKeyError::InvalidService,
            ) && *final(self) == *old(self),
            *caller == service.owner ==> (match old(self).spec_update_key_error(
                permissions_mask,
                rate_limit,
                expires_at,
                now,
            ) {
                Some(e) => r == Err::<KeyUpdated, ApiKeyError>(e) && *final(self) == *old(self),
                None => {
                    &&& *final(self) == old(self).spec_update_key_post(
                        permissions_mask,
                        rate_limit,
                        expires_at,
                    )
                    &&& (old(self).wf() ==> final(self).wf())
                    &&& r == Ok::<KeyUpdated, ApiKeyError>(
                        KeyUpdated {
                            service: old(self).service,
                            key_hash: old(self).key_hash,
                            permissions: final(self).permissions,
                            rate_limit: final(self).rate_limit,
                            expires_at: final(self).expires_at,
                        },
                    )
                },
            }),
    {
        if !same_identity(caller, &service.owner) {
            return Err(ApiKeyError::InvalidService);
        }
        if self.revoked {
            return Err(ApiKeyError::KeyRevoked);
        }
        if self.expires_at != 0 && now >= self.expires_at {
            return Err(ApiKeyError::KeyExpired);
        }
        // Validate every supplied field before writing any, so that a
        // rejection leaves the record untouched.
        if let Some(p) = permissions_mask {
            if !permissions::is_valid(p) {
                return Err(ApiKeyError::InvalidPermissions);
            }
        }
        if let Some(l) = rate_limit {
            if l == 0 {
                return Err(ApiKeyError::InvalidConfig);
            }
        }
        if let Some(e) = expires_at {
            if e != 0 && e <= now {
                return Err(ApiKeyError::InvalidExpiry);
            }
        }
        if let Some(p) = permissions_mask {
            self.permissions = p;
        }
        if let Some(l) = rate_limit {
            self.rate_limit = l;
        }
        if let Some(e) = expires_at {
            self.expires_at = e;
        }
        Ok(
            KeyUpdated {
                service: self.service,
                key_hash: self.key_hash,
                permissions: self.permissions,
                rate_limit: self.rate_limit,
                expires_at: self.expires_at,
            },
        )
    }

    /// The rejection, if any, of a rotation: the old key must not already
    /// be revoked, a supplied replacement label is validated as at
    /// creation, and the creation counter must have room to grow.
    pub open spec fn spec_rotate_key_error(
        self,
        service: ServiceConfig,
        new_label: Option<String>,
    ) -> Option<ApiKeyError> {
        if self.revoked {
            Some(ApiKeyError::AlreadyRevoked)
        } else if new_label matches Some(l) && (l@.len() < 1 || l@.len() > 32) {
            Some(ApiKeyError::InvalidName)
        } else if service.total_keys_created == u32::MAX {
            Some(ApiKeyError::Overflow)
        } else {
            None
        }
    }

    /// Atomically rotate the key: revoke it and create a replacement under
    /// a new fingerprint in one indivisible step, either all of it or none.
    /// The replacement inherits the label (unless a new one is supplied),
    /// permissions, rate limit, window length, and expiry; its usage
    /// counters start fresh. Because rotation is a like-for-like
    /// replacement, the service's active count is left alone — one key
    /// leaves the active set and one enters it in the same step — while
    /// the creation counter grows by exactly one.
    pub fn rotate_key(
        &mut self,
        service: &mut ServiceConfig,
        caller: &[u8; 32],
        new_key_hash: [u8; 32],
        new_label: Option<String>,
        now: i64,
    ) -> (r: Result<(ApiKey, KeyRevoked, KeyCreated), ApiKeyError>)
        ensures
            *caller != old(service).owner ==> r == Err::<
                (ApiKey, KeyRevoked, KeyCreated),
                ApiKeyError,
            >(ApiKeyError::InvalidService) && *final(self) == *old(self) && *final(service)
                == *old(service),
            *caller == old(service).owner ==> (match old(self).spec_rotate_key_error(
                *old(service),
                new_label,
            ) {
                Some(e) => r == Err::<(ApiKey, KeyRevoked, KeyCreated), ApiKeyError>(e)
                    && *final(self) == *old(self) && *final(service) == *old(service),
                None => {
                    &&& r is Ok
                    &&& *final(self) == (ApiKey { revoked: true, ..*old(self) })
                    &&& *final(service) == (ServiceConfig {
                        total_keys_created: (old(service).total_keys_created + 1) as u32,
                        ..*old(service)
                    })
                    &&& final(service).active_keys == old(service).active_keys
                    &&& final(self).total_usage == old(self).total_usage
                    &&& (old(service).wf() ==> final(service).wf())
                    &&& (old(self).wf() ==> final(self).wf())
                    &&& (r matches Ok(t) ==> {
                        let new_key = t.0;
                        let ev_revoked = t.1;
                        let ev_created = t.2;
                        &&& new_key.service == old(self).service
                        &&& new_key.key_hash == new_key_hash
                        &&& new_key.label@ == (match new_label {
                            Some(l) => l@,
                            None => old(self).label@,
                        })
                        &&& new_key.permissions == old(self).permissions
                        &&& new_key.rate_limit == old(self).rate_limit
                        &&& new_key.rate_limit_window == old(self).rate_limit_window
                        &&& new_key.window_start == now
                        &&& new_key.window_usage == 0
                        &&& new_key.total_usage == 0
                        &&& new_key.created_at == now
                        &&& new_key.last_used_at == 0
                        &&& new_key.expires_at == old(self).expires_at
                        &&& new_key.revoked == false
                        &&& (old(self).wf() ==> new_key.wf())
                        &&& ev_revoked.service == old(service).owner
                        &&& ev_revoked.key_hash == old(self).key_hash
                        &&& ev_revoked.total_usage == old(self).total_usage
                        &&& ev_created.service == old(service).owner
                        &&& ev_created.key_hash == new_key_hash
                        &&& ev_created.label@ == new_key.label@
                        &&& ev_created.permissions == new_key.permissions
                        &&& ev_created.rate_limit == new_key.rate_limit
                        &&& ev_created.expires_at == new_key.expires_at
                    })
                },
            }),
    {
        if !same_identity(caller, &service.owner) {
            return Err(ApiKeyError::InvalidService);
        }
        if self.revoked {
            return Err(ApiKeyError::AlreadyRevoked);
        }
        // Validate the replacement label before touching either record, so
        // that a rejection leaves both untouched.
        if let Some(l) = &new_label {
            let label_len = l.as_str().unicode_len();
            if label_len < 1 || label_len > 32 {
                return Err(ApiKeyError::InvalidName);
            }
        }
        if service.total_keys_created == u32::MAX {
            return Err(ApiKeyError::Overflow);
        }
        self.revoked = true;
        let label = match new_label {
            Some(l) => l,
            None => self.label.clone(),
        };
        let new_key = ApiKey {
            service: self.service,
            key_hash: new_key_hash,
            label,
            permissions: self.permissions,
            rate_limit: self.rate_limit,
            rate_limit_window: self.rate_limit_window,
            window_start: now,
            window_usage: 0,
            total_usage: 0,
            created_at: now,
            last_used_at: 0,
            expires_at: self.expires_at,
            revoked: false,
        };
        service.total_keys_created = service.total_keys_created + 1;
        let ev_revoked = KeyRevoked {
            service: service.owner,
            key_hash: self.key_hash,
            total_usage: self.total_usage,
        };
        let ev_created = KeyCreated {
            service: service.owner,
            key_hash: new_key_hash,
            label: new_key.label.clone(),
            permissions: new_key.permissions,
            rate_limit: new_key.rate_limit,
            expires_at: new_key.expires_at,
        };
        Ok((new_key, ev_revoked, ev_created))
    }

    /// The rejection, if any, of closing the key: only an inconsistent
    /// active count (a still-Active key while the service counts zero) is
    /// refused. A revoked key closes without touching the count.
    pub open spec fn spec_close_key_error(self, service: ServiceConfig) -> Option<ApiKeyError> {
        if !self.revoked && service.active_keys == 0 {
            Some(ApiKeyError::Overflow)
        } else {
            None
        }
    }

    /// Close the key: the host deletes the record after this accounting
    /// step. Only the service owner may close. Closing works in any
    /// lifecycle state; if the key was still Active the service's active
    /// count comes down by one, while a Revoked key has already been
    /// decremented and must not be decremented twice.
    pub fn close_key(&self, service: &mut ServiceConfig, caller: &[u8; 32]) -> (r: Result<
        KeyClosed,
        ApiKeyError,
    >)
        ensures
            *caller != old(service).owner ==> r == Err::<KeyClosed, ApiKeyError>(
                ApiKeyError::InvalidService,
            ) && *final(service) == *old(service),
            *caller == old(service).owner ==> (match self.spec_close_key_error(*old(service)) {
                Some(e) => r == Err::<KeyClosed, ApiKeyError>(e) && *final(service) == *old(
                    service,
                ),
                None => {
                    &&& r == Ok::<KeyClosed, ApiKeyError>(
                        KeyClosed {
                            service: old(service).owner,
                            key_hash: self.key_hash,
                            total_usage: self.total_usage,
                        },
                    )
                    &&& *final(service) == (ServiceConfig {
                        active_keys: if self.revoked {
                            old(service).active_keys
                        } else {
                            (old(service).active_keys - 1) as u32
                        },
                        ..*old(service)
                    })
                    &&& (old(service).wf() ==> final(service).wf())
                },
            }),
    {
        if !same_identity(caller, &service.owner) {
            return Err(ApiKeyError::InvalidService);
        }
        if !self.revoked {
            if service.active_keys == 0 {
                return Err(ApiKeyError::Overflow);
            }
            service.active_keys = service.active_keys - 1;
        }
        Ok(
            KeyClosed {
                service: service.owner,
                key_hash: self.key_hash,
                total_usage: self.total_usage,
            },
        )
    }
}

} // verus!

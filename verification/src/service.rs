//! The service record and its quota manager: the per-service cap on
//! concurrently active keys and the mutable service-level defaults that new
//! keys freeze a copy of at creation time.

use vstd::prelude::*;
use crate::errors::ApiKeyError;
use crate::events::ServiceCreated;
use crate::events::ServiceUpdated;
use crate::windows;

verus! {

broadcast use vstd::array::group_array_axioms;

/// Compare two 32-byte identifiers (owner identities, key fingerprints).
pub fn same_identity(a: &[u8; 32], b: &[u8; 32]) -> (r: bool)
    ensures
        r == (*a == *b),
{
    let mut i: usize = 0;
    while i < 32
        invariant
            0 <= i <= 32,
            forall|j: int| 0 <= j < i ==> a@[j] == b@[j],
        decreases 32 - i,
    {
        if a[i] != b[i] {
            return false;
        }
        i = i + 1;
    }
    proof {
        assert(a@ =~= b@);
        assert(*a =~= *b);
    }
    true
}

/// One service per owning principal: the administrative grouping of keys,
/// carrying shared defaults and a capacity quota. The record store scopes the
/// service record by its owner identity.
#[derive(Debug)]
pub struct ServiceConfig {
    /// The sole identity authorized to mutate this service and its keys.
    pub owner: [u8; 32],
    /// Display label, 1-32 characters.
    pub name: String,
    /// Upper bound on concurrently active keys (1-10,000).
    pub max_keys: u32,
    /// Quota applied to a key when no override is given at creation.
    pub default_rate_limit: u32,
    /// Default window for new keys: one of 60, 3600, or 86400 seconds.
    pub rate_limit_window: i64,
    /// Keys ever created under this service; never decremented.
    pub total_keys_created: u32,
    /// Count of keys currently in the Active state.
    pub active_keys: u32,
    /// Creation timestamp; immutable.
    pub created_at: i64,
}

impl ServiceConfig {
    /// Well-formedness: established by `initialize_service` and preserved by
    /// every operation. In particular `0 <= active_keys <= max_keys` holds at
    /// all times.
    pub open spec fn wf(self) -> bool {
        &&& 1 <= self.name@.len() <= 32
        &&& 1 <= self.max_keys <= 10000
        &&& self.default_rate_limit > 0
        &&& windows::spec_is_valid(self.rate_limit_window)
        &&& self.active_keys <= self.max_keys
        &&& self.active_keys <= self.total_keys_created
    }

    /// The rejection, if any, for a proposed service configuration. The
    /// checks run in a fixed order: name, key cap, default rate limit,
    /// window.
    pub open spec fn spec_config_error(
        name: Seq<char>,
        max_keys: u32,
        default_rate_limit: u32,
        rate_limit_window: i64,
    ) -> Option<ApiKeyError> {
        if name.len() < 1 || name.len() > 32 {
            Some(ApiKeyError::InvalidName)
        } else if max_keys < 1 || max_keys > 10000 {
            Some(ApiKeyError::InvalidConfig)
        } else if default_rate_limit == 0 {
            Some(ApiKeyError::InvalidConfig)
        } else if !windows::spec_is_valid(rate_limit_window) {
            Some(ApiKeyError::InvalidWindow)
        } else {
            None
        }
    }

    /// Initialize a new service owned by `owner`, with no keys yet.
    pub fn initialize_service(
        owner: [u8; 32],
        name: String,
        max_keys: u32,
        default_rate_limit: u32,
        rate_limit_window: i64,
        now: i64,
    ) -> (r: Result<(ServiceConfig, ServiceCreated), ApiKeyError>)
        ensures
            r is Ok <==> Self::spec_config_error(
                name@,
                max_keys,
                default_rate_limit,
                rate_limit_window,
            ) is None,
            r is Err ==> Some(r->Err_0) == Self::spec_config_error(
                name@,
                max_keys,
                default_rate_limit,
                rate_limit_window,
            ),
            r matches Ok(p) ==> ({
                let s = p.0;
                let ev = p.1;
                &&& s.owner == owner
                &&& s.name == name
                &&& s.max_keys == max_keys
                &&& s.default_rate_limit == default_rate_limit
                &&& s.rate_limit_window == rate_limit_window
                &&& s.total_keys_created == 0
                &&& s.active_keys == 0
                &&& s.created_at == now
                &&& s.wf()
                &&& ev.service == owner
                &&& ev.owner == owner
                &&& ev.name@ == name@
                &&& ev.max_keys == max_keys
                &&& ev.rate_limit_window == rate_limit_window
            }),
    {
        let name_len = name.as_str().unicode_len();
        if name_len < 1 || name_len > 32 {
            return Err(ApiKeyError::InvalidName);
        }
        if max_keys < 1 || max_keys > 10000 {
            return Err(ApiKeyError::InvalidConfig);
        }
        if default_rate_limit == 0 {
            return Err(ApiKeyError::InvalidConfig);
        }
        if !windows::is_valid(rate_limit_window) {
            return Err(ApiKeyError::InvalidWindow);
        }
        let ev = ServiceCreated {
            service: owner,
            owner,
            name: name.clone(),
            max_keys,
            rate_limit_window,
        };
        let service = ServiceConfig {
            owner,
            name,
            max_keys,
            default_rate_limit,
            rate_limit_window,
            total_keys_created: 0,
            active_keys: 0,
            created_at: now,
        };
        Ok((service, ev))
    }

    /// The rejection, if any, for a sparse service update. Each supplied
    /// field receives the same validation it would receive at creation;
    /// additionally `max_keys` may not shrink below the live active count.
    /// Absent fields are not validated. Checks run in a fixed order: name,
    /// key cap, default rate limit, window.
    pub open spec fn spec_update_service_error(
        self,
        name: Option<String>,
        max_keys: Option<u32>,
        default_rate_limit: Option<u32>,
        rate_limit_window: Option<i64>,
    ) -> Option<ApiKeyError> {
        if name matches Some(n) && (n@.len() < 1 || n@.len() > 32) {
            Some(ApiKeyError::InvalidName)
        } else if max_keys matches Some(mk) && (mk < 1 || mk > 10000) {
            Some(ApiKeyError::InvalidConfig)
        } else if max_keys matches Some(mk) && mk < self.active_keys {
            Some(ApiKeyError::InvalidConfig)
        } else if default_rate_limit matches Some(d) && d == 0 {
            Some(ApiKeyError::InvalidConfig)
        } else if rate_limit_window matches Some(w) && !windows::spec_is_valid(w) {
            Some(ApiKeyError::InvalidWindow)
        } else {
            None
        }
    }

    /// The service state after an accepted sparse update: each supplied
    /// field replaces the stored one, absent fields keep their value, and
    /// the counters and creation time never change.
    pub open spec fn spec_update_service_post(
        self,
        name: Option<String>,
        max_keys: Option<u32>,
        default_rate_limit: Option<u32>,
        rate_limit_window: Option<i64>,
    ) -> ServiceConfig {
        ServiceConfig {
            name: match name {
                Some(n) => n,
                None => self.name,
            },
            max_keys: match max_keys {
                Some(mk) => mk,
                None => self.max_keys,
            },
            default_rate_limit: match default_rate_limit {
                Some(d) => d,
                None => self.default_rate_limit,
            },
            rate_limit_window: match rate_limit_window {
                Some(w) => w,
                None => self.rate_limit_window,
            },
            ..self
        }
    }

    /// Apply a sparse update to the service's mutable settings. Only the
    /// owner may update; every supplied field is validated before any field
    /// is written, so a rejected update leaves the record untouched. New
    /// defaults never retroactively change already-created keys, which each
    /// hold a frozen copy of the defaults from their creation time.
    pub fn update_service(
        &mut self,
        caller: &[u8; 32],
        name: Option<String>,
        max_keys: Option<u32>,
        default_rate_limit: Option<u32>,
        rate_limit_window: Option<i64>,
    ) -> (r: Result<ServiceUpdated, ApiKeyError>)
        ensures
            *caller != old(self).owner ==> r == Err::<ServiceUpdated, ApiKeyError>(
                ApiKeyError::InvalidService,
            ) && *final(self) == *old(self),
            *caller == old(self).owner ==> (match old(self).spec_update_service_error(
                name,
                max_keys,
                default_rate_limit,
                rate_limit_window,
            ) {
                Some(e) => r == Err::<ServiceUpdated, ApiKeyError>(e) && *final(self) == *old(
                    self,
                ),
                None => {
                    &&& r is Ok
                    &&& *final(self) == old(self).spec_update_service_post(
                        name,
                        max_keys,
                        default_rate_limit,
                        rate_limit_window,
                    )
                    &&& old(self).wf() ==> final(self).wf()
                    &&& (r matches Ok(ev) ==> {
                        &&& ev.service == old(self).owner
                        &&& ev.name@ == final(self).name@
                        &&& ev.max_keys == final(self).max_keys
                        &&& ev.default_rate_limit == final(self).default_rate_limit
                        &&& ev.rate_limit_window == final(self).rate_limit_window
                    })
                },
            }),
    {
        if !same_identity(caller, &self.owner) {
            return Err(ApiKeyError::InvalidService);
        }
        // Validate every supplied field before writing any, so that a
        // rejection leaves the record untouched.
        if let Some(n) = &name {
            let l = n.as_str().unicode_len();
            if l < 1 || l > 32 {
                return Err(ApiKeyError::InvalidName);
            }
        }
        if let Some(mk) = max_keys {
            if mk < 1 || mk > 10000 {
                return Err(ApiKeyError::InvalidConfig);
            }
            if mk < self.active_keys {
                return Err(ApiKeyError::InvalidConfig);
            }
        }
        if let Some(d) = default_rate_limit {
            if d == 0 {
                return Err(ApiKeyError::InvalidConfig);
            }
        }
        if let Some(w) = rate_limit_window {
            if !windows::is_valid(w) {
                return Err(ApiKeyError::InvalidWindow);
            }
        }
        if let Some(n) = name {
            self.name = n;
        }
        if let Some(mk) = max_keys {
            self.max_keys = mk;
        }
        if let Some(d) = default_rate_limit {
            self.default_rate_limit = d;
        }
        if let Some(w) = rate_limit_window {
            self.rate_limit_window = w;
        }
        let ev = ServiceUpdated {
            service: self.owner,
            name: self.name.clone(),
            max_keys: self.max_keys,
            default_rate_limit: self.default_rate_limit,
            rate_limit_window: self.rate_limit_window,
        };
        Ok(ev)
    }
}

} // verus!

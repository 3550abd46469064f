//! Engine-wide laws, stated and proved over the same specification functions
//! that the operations' contracts use.

use vstd::prelude::*;
use crate::errors::ApiKeyError;
use crate::events::KeyValidated;
use crate::key::ApiKey;
use crate::permissions;
use crate::service::ServiceConfig;

verus! {

/// Every well-formed service keeps its active-key count within the cap:
/// `0 <= active_keys <= max_keys`. Well-formedness is established by
/// `initialize_service` and preserved by every operation, so this bound
/// holds at all times.
pub proof fn lemma_active_keys_within_cap(s: ServiceConfig)
    requires
        s.wf(),
    ensures
        0 <= s.active_keys <= s.max_keys,
{
}

/// Usage recording keeps the live counter within the limit. After any
/// admitted recording the bound holds unconditionally, because the counter
/// becomes one more than the effective pre-reset count, which admission
/// bounds strictly by the limit. A rejected recording changes nothing, so
/// over any sequence of `record_usage` calls the bound, once true, stays
/// true as observed immediately after every call.
pub proof fn lemma_record_usage_window_bound(k: ApiKey, now: i64)
    ensures
        k.spec_record_usage_error(now) is None ==> ({
            let post = k.spec_record_usage_post(now);
            post.window_usage <= post.rate_limit
        }),
        k.window_usage <= k.rate_limit ==> ({
            let post = if k.spec_record_usage_error(now) is None {
                k.spec_record_usage_post(now)
            } else {
                k
            };
            post.window_usage <= post.rate_limit
        }),
{
}

/// Read-only validation sees exactly what an immediately following usage
/// recording would see: while the all-time counter has room, validation
/// succeeds if and only if the recording would be accepted, and a failing
/// validation reports the very error the recording would report.
pub proof fn lemma_validate_agrees_with_record_usage(k: ApiKey, now: i64)
    requires
        k.total_usage < u64::MAX,
    ensures
        k.spec_validate(now) is Ok <==> k.spec_record_usage_error(now) is None,
        k.spec_validate(now) matches Err(e) ==> k.spec_record_usage_error(now) == Some(e),
{
}

/// Revocation is terminal. A revoked key fails every subsequent operation:
/// usage recording, read-only validation, permission checks, and updates
/// fail with the revoked-key error; a second revocation or a rotation fails
/// as already revoked; no input whatever reaches any other outcome. Only
/// closing still succeeds, and it leaves the service's active count alone,
/// since revocation already surrendered the key's slot.
pub proof fn lemma_revocation_terminal(
    k: ApiKey,
    s: ServiceConfig,
    now: i64,
    required: u16,
    permissions_mask: Option<u16>,
    rate_limit: Option<u32>,
    expires_at: Option<i64>,
    new_label: Option<String>,
)
    requires
        k.revoked,
    ensures
        k.spec_record_usage_error(now) == Some(ApiKeyError::KeyRevoked),
        k.spec_validate(now) == Err::<KeyValidated, ApiKeyError>(ApiKeyError::KeyRevoked),
        k.spec_check_permission_error(required, now) == Some(ApiKeyError::KeyRevoked),
        k.spec_update_key_error(permissions_mask, rate_limit, expires_at, now) == Some(
            ApiKeyError::KeyRevoked,
        ),
        k.spec_revoke_key_error(s) == Some(ApiKeyError::AlreadyRevoked),
        k.spec_rotate_key_error(s, new_label) == Some(ApiKeyError::AlreadyRevoked),
        k.spec_close_key_error(s) is None,
{
}

/// A key that never expires (`expires_at == 0`) and is not revoked passes
/// the lifecycle guard at every instant, however much time has elapsed.
pub proof fn lemma_expiry_sentinel(k: ApiKey, now: i64)
    requires
        !k.revoked,
        k.expires_at == 0,
    ensures
        k.spec_guard(now) is None,
{
}

/// Capacity counts Active keys only. A service at its cap rejects any
/// creation, however valid its inputs; and revoking one key — which
/// decrements the active count without deleting the record — already frees
/// the slot, so the same creation then succeeds. Closing is not required.
pub proof fn lemma_capacity_boundary(
    s: ServiceConfig,
    label: Seq<char>,
    permissions_mask: u16,
    rate_limit: Option<u32>,
    expires_at: Option<i64>,
    now: i64,
)
    requires
        s.wf(),
        s.active_keys == s.max_keys,
        s.total_keys_created < u32::MAX,
        1 <= label.len() <= 32,
        permissions::spec_is_valid(permissions_mask),
        ApiKey::spec_effective_rate_limit(s, rate_limit) != 0,
        expires_at matches Some(e) ==> e > now,
    ensures
        ApiKey::spec_create_key_error(s, label, permissions_mask, rate_limit, expires_at, now)
            == Some(ApiKeyError::MaxKeysReached),
        ({
            let freed = ServiceConfig { active_keys: (s.active_keys - 1) as u32, ..s };
            ApiKey::spec_create_key_error(
                freed,
                label,
                permissions_mask,
                rate_limit,
                expires_at,
                now,
            ) is None
        }),
{
}

} // verus!

use api_key_manager::errors::ApiKeyError;
use api_key_manager::key::ApiKey;
use api_key_manager::permissions;
use api_key_manager::service::ServiceConfig;

const OWNER: [u8; 32] = [4u8; 32];
const OLD_HASH: [u8; 32] = [0x11u8; 32];
const NEW_HASH: [u8; 32] = [0x22u8; 32];

fn service_and_key() -> (ServiceConfig, ApiKey) {
    let (mut svc, _) =
        ServiceConfig::initialize_service(OWNER, String::from("svc"), 10, 100, 3600, 10)
            .unwrap();
    let (k, _) = ApiKey::create_key(
        &mut svc,
        &OWNER,
        OLD_HASH,
        String::from("primary"),
        permissions::READ | permissions::DELETE,
        Some(42),
        Some(90_000),
        100,
    )
    .unwrap();
    (svc, k)
}

#[test]
fn rotate_key_replaces_fingerprint_and_preserves_configuration() {
    let (mut svc, mut old) = service_and_key();
    // accumulate some usage on the old key first
    for t in 0..5i64 {
        old.record_usage(&svc, &OWNER, 200 + t).unwrap();
    }
    assert_eq!(old.total_usage, 5);
    let active_before = svc.active_keys;
    let created_before = svc.total_keys_created;

    let (new, ev_revoked, ev_created) = old
        .rotate_key(&mut svc, &OWNER, NEW_HASH, None, 300)
        .unwrap();

    // the old key is Revoked with its all-time usage untouched
    assert!(old.revoked);
    assert_eq!(old.total_usage, 5);
    assert_eq!(old.key_hash, OLD_HASH);
    // the new key is Active under the new fingerprint, configuration kept,
    // counters fresh
    assert!(!new.revoked);
    assert_eq!(new.key_hash, NEW_HASH);
    assert_eq!(new.label, "primary");
    assert_eq!(new.permissions, permissions::READ | permissions::DELETE);
    assert_eq!(new.rate_limit, 42);
    assert_eq!(new.rate_limit_window, 3600);
    assert_eq!(new.expires_at, 90_000);
    assert_eq!(new.window_usage, 0);
    assert_eq!(new.total_usage, 0);
    assert_eq!(new.window_start, 300);
    assert_eq!(new.created_at, 300);
    assert_eq!(new.last_used_at, 0);
    // like-for-like replacement: active count unchanged, one more created
    assert_eq!(svc.active_keys, active_before);
    assert_eq!(svc.total_keys_created, created_before + 1);
    // both halves of the rotation are notified
    assert_eq!(ev_revoked.key_hash, OLD_HASH);
    assert_eq!(ev_revoked.total_usage, 5);
    assert_eq!(ev_created.key_hash, NEW_HASH);
    assert_eq!(ev_created.label, "primary");
    assert_eq!(ev_created.rate_limit, 42);
    assert_eq!(ev_created.expires_at, 90_000);
}

#[test]
fn rotate_key_with_new_label() {
    let (mut svc, mut old) = service_and_key();
    let (new, _, ev_created) = old
        .rotate_key(&mut svc, &OWNER, NEW_HASH, Some(String::from("renewed")), 300)
        .unwrap();
    assert_eq!(new.label, "renewed");
    assert_eq!(ev_created.label, "renewed");
}

#[test]
fn rotate_key_rejects_bad_label_and_leaves_both_records_untouched() {
    let (mut svc, mut old) = service_and_key();
    let created_before = svc.total_keys_created;
    let r = old.rotate_key(&mut svc, &OWNER, NEW_HASH, Some("x".repeat(33)), 300);
    assert_eq!(r.unwrap_err(), ApiKeyError::InvalidName);
    assert!(!old.revoked);
    assert_eq!(svc.total_keys_created, created_before);
}

#[test]
fn rotate_key_rejects_revoked_key() {
    let (mut svc, mut old) = service_and_key();
    old.revoke_key(&mut svc, &OWNER).unwrap();
    let r = old.rotate_key(&mut svc, &OWNER, NEW_HASH, None, 300);
    assert_eq!(r.unwrap_err(), ApiKeyError::AlreadyRevoked);
}

#[test]
fn rotate_key_rejects_caller_that_is_not_owner() {
    let (mut svc, mut old) = service_and_key();
    let stranger = [5u8; 32];
    let r = old.rotate_key(&mut svc, &stranger, NEW_HASH, None, 300);
    assert_eq!(r.unwrap_err(), ApiKeyError::InvalidService);
    assert!(!old.revoked);
}

#[test]
fn rotated_key_records_usage_under_its_own_fresh_window() {
    let (mut svc, mut old) = service_and_key();
    for t in 0..5i64 {
        old.record_usage(&svc, &OWNER, 200 + t).unwrap();
    }
    let (mut new, _, _) = old.rotate_key(&mut svc, &OWNER, NEW_HASH, None, 300).unwrap();
    let ev = new.record_usage(&svc, &OWNER, 301).unwrap();
    assert_eq!(ev.window_usage, 1);
    assert_eq!(ev.total_usage, 1);
    // and the old key can no longer record
    assert_eq!(
        old.record_usage(&svc, &OWNER, 301).unwrap_err(),
        ApiKeyError::KeyRevoked
    );
}

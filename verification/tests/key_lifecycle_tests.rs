use api_key_manager::errors::ApiKeyError;
use api_key_manager::key::ApiKey;
use api_key_manager::permissions;
use api_key_manager::service::ServiceConfig;

const OWNER: [u8; 32] = [1u8; 32];
const HASH_A: [u8; 32] = [0xAAu8; 32];
const HASH_B: [u8; 32] = [0xBBu8; 32];

fn service(max_keys: u32) -> ServiceConfig {
    let (svc, _) =
        ServiceConfig::initialize_service(OWNER, String::from("svc"), max_keys, 100, 60, 10)
            .unwrap();
    svc
}

fn key(svc: &mut ServiceConfig) -> ApiKey {
    let (k, _) = ApiKey::create_key(
        svc,
        &OWNER,
        HASH_A,
        String::from("primary"),
        permissions::READ | permissions::WRITE,
        None,
        None,
        100,
    )
    .unwrap();
    k
}

#[test]
fn create_key_freezes_service_defaults() {
    let mut svc = service(10);
    let (k, ev) = ApiKey::create_key(
        &mut svc,
        &OWNER,
        HASH_A,
        String::from("primary"),
        permissions::READ,
        None,
        None,
        100,
    )
    .unwrap();
    assert_eq!(k.service, OWNER);
    assert_eq!(k.key_hash, HASH_A);
    assert_eq!(k.label, "primary");
    assert_eq!(k.permissions, permissions::READ);
    assert_eq!(k.rate_limit, 100);
    assert_eq!(k.rate_limit_window, 60);
    assert_eq!(k.window_start, 100);
    assert_eq!(k.window_usage, 0);
    assert_eq!(k.total_usage, 0);
    assert_eq!(k.created_at, 100);
    assert_eq!(k.last_used_at, 0);
    assert_eq!(k.expires_at, 0);
    assert!(!k.revoked);
    assert_eq!(svc.total_keys_created, 1);
    assert_eq!(svc.active_keys, 1);
    assert_eq!(ev.key_hash, HASH_A);
    assert_eq!(ev.rate_limit, 100);
    assert_eq!(ev.expires_at, 0);
}

#[test]
fn create_key_with_override_and_expiry() {
    let mut svc = service(10);
    let (k, _) = ApiKey::create_key(
        &mut svc,
        &OWNER,
        HASH_A,
        String::from("temp"),
        permissions::ALL,
        Some(5),
        Some(1000),
        100,
    )
    .unwrap();
    assert_eq!(k.rate_limit, 5);
    assert_eq!(k.expires_at, 1000);
}

#[test]
fn create_key_rejects_bad_label_mask_expiry_and_rate() {
    let mut svc = service(10);
    let r = ApiKey::create_key(&mut svc, &OWNER, HASH_A, String::new(), 1, None, None, 100);
    assert_eq!(r.unwrap_err(), ApiKeyError::InvalidName);
    let r = ApiKey::create_key(
        &mut svc,
        &OWNER,
        HASH_A,
        String::from("k"),
        permissions::ALL + 1,
        None,
        None,
        100,
    );
    assert_eq!(r.unwrap_err(), ApiKeyError::InvalidPermissions);
    // an expiry exactly at the current time is not strictly in the future
    let r = ApiKey::create_key(
        &mut svc,
        &OWNER,
        HASH_A,
        String::from("k"),
        1,
        None,
        Some(100),
        100,
    );
    assert_eq!(r.unwrap_err(), ApiKeyError::InvalidExpiry);
    let r = ApiKey::create_key(
        &mut svc,
        &OWNER,
        HASH_A,
        String::from("k"),
        1,
        Some(0),
        None,
        100,
    );
    assert_eq!(r.unwrap_err(), ApiKeyError::InvalidConfig);
    // nothing was created along the way
    assert_eq!(svc.total_keys_created, 0);
    assert_eq!(svc.active_keys, 0);
}

#[test]
fn create_key_rejects_caller_that_is_not_owner() {
    let mut svc = service(10);
    let stranger = [9u8; 32];
    let r = ApiKey::create_key(
        &mut svc,
        &stranger,
        HASH_A,
        String::from("k"),
        1,
        None,
        None,
        100,
    );
    assert_eq!(r.unwrap_err(), ApiKeyError::InvalidService);
}

#[test]
fn capacity_boundary_revocation_frees_a_slot() {
    // a service with max_keys = 1 and one Active key rejects a second
    // creation; revoking the key frees the slot without closing it
    let mut svc = service(1);
    let mut k1 = key(&mut svc);
    let r = ApiKey::create_key(
        &mut svc,
        &OWNER,
        HASH_B,
        String::from("second"),
        1,
        None,
        None,
        101,
    );
    assert_eq!(r.unwrap_err(), ApiKeyError::MaxKeysReached);
    k1.revoke_key(&mut svc, &OWNER).unwrap();
    assert_eq!(svc.active_keys, 0);
    let r = ApiKey::create_key(
        &mut svc,
        &OWNER,
        HASH_B,
        String::from("second"),
        1,
        None,
        None,
        102,
    );
    assert!(r.is_ok());
    assert_eq!(svc.active_keys, 1);
    assert_eq!(svc.total_keys_created, 2);
}

#[test]
fn revoke_key_is_terminal() {
    let mut svc = service(10);
    let mut k = key(&mut svc);
    let ev = k.revoke_key(&mut svc, &OWNER).unwrap();
    assert!(k.revoked);
    assert_eq!(svc.active_keys, 0);
    assert_eq!(ev.key_hash, HASH_A);
    assert_eq!(ev.total_usage, 0);
    // every subsequent operation but close fails with a revoked-key error
    assert_eq!(
        k.record_usage(&svc, &OWNER, 101).unwrap_err(),
        ApiKeyError::KeyRevoked
    );
    assert_eq!(k.validate_key(101).unwrap_err(), ApiKeyError::KeyRevoked);
    assert_eq!(
        k.check_permission(permissions::READ, 101).unwrap_err(),
        ApiKeyError::KeyRevoked
    );
    assert_eq!(
        k.update_key(&svc, &OWNER, Some(1), None, None, 101).unwrap_err(),
        ApiKeyError::KeyRevoked
    );
    assert_eq!(
        k.revoke_key(&mut svc, &OWNER).unwrap_err(),
        ApiKeyError::AlreadyRevoked
    );
    assert_eq!(
        k.rotate_key(&mut svc, &OWNER, HASH_B, None, 101).unwrap_err(),
        ApiKeyError::AlreadyRevoked
    );
    // only close still succeeds, and it does not decrement again
    let ev = k.close_key(&mut svc, &OWNER).unwrap();
    assert_eq!(svc.active_keys, 0);
    assert_eq!(ev.key_hash, HASH_A);
}

#[test]
fn close_active_key_decrements_active_count() {
    let mut svc = service(10);
    let k = key(&mut svc);
    assert_eq!(svc.active_keys, 1);
    k.close_key(&mut svc, &OWNER).unwrap();
    assert_eq!(svc.active_keys, 0);
    // the creation counter is monotonic and stays
    assert_eq!(svc.total_keys_created, 1);
}

#[test]
fn update_key_patches_fields_in_place() {
    let mut svc = service(10);
    let mut k = key(&mut svc);
    let ev = k
        .update_key(&svc, &OWNER, Some(permissions::READ), Some(7), Some(500), 100)
        .unwrap();
    assert_eq!(k.permissions, permissions::READ);
    assert_eq!(k.rate_limit, 7);
    assert_eq!(k.expires_at, 500);
    assert_eq!(ev.permissions, permissions::READ);
    assert_eq!(ev.rate_limit, 7);
    assert_eq!(ev.expires_at, 500);
}

#[test]
fn update_key_zero_expiry_clears_previous_expiry() {
    let mut svc = service(10);
    let mut k = key(&mut svc);
    k.update_key(&svc, &OWNER, None, None, Some(500), 100).unwrap();
    assert_eq!(k.expires_at, 500);
    // the sentinel 0 clears the expiry instead of being rejected as
    // non-future; the key becomes non-expiring again
    k.update_key(&svc, &OWNER, None, None, Some(0), 400).unwrap();
    assert_eq!(k.expires_at, 0);
    assert!(k.validate_key(1_000_000).is_ok());
}

#[test]
fn update_key_validates_supplied_fields() {
    let mut svc = service(10);
    let mut k = key(&mut svc);
    let r = k.update_key(&svc, &OWNER, Some(permissions::ALL + 1), None, None, 100);
    assert_eq!(r.unwrap_err(), ApiKeyError::InvalidPermissions);
    let r = k.update_key(&svc, &OWNER, None, Some(0), None, 100);
    assert_eq!(r.unwrap_err(), ApiKeyError::InvalidConfig);
    let r = k.update_key(&svc, &OWNER, None, None, Some(99), 100);
    assert_eq!(r.unwrap_err(), ApiKeyError::InvalidExpiry);
    // a rejected update leaves the key untouched
    assert_eq!(k.permissions, permissions::READ | permissions::WRITE);
    assert_eq!(k.rate_limit, 100);
    assert_eq!(k.expires_at, 0);
}

#[test]
fn update_key_on_expired_key_fails_with_expired_error() {
    let mut svc = service(10);
    let (mut k, _) = ApiKey::create_key(
        &mut svc,
        &OWNER,
        HASH_A,
        String::from("temp"),
        1,
        None,
        Some(200),
        100,
    )
    .unwrap();
    let r = k.update_key(&svc, &OWNER, None, None, Some(0), 200);
    assert_eq!(r.unwrap_err(), ApiKeyError::KeyExpired);
}

#[test]
fn counters_at_their_ceiling_fail_closed() {
    // every increment is checked: at the ceiling the operation signals
    // Overflow and mutates nothing instead of wrapping
    let mut svc = ServiceConfig {
        owner: OWNER,
        name: String::from("svc"),
        max_keys: 10,
        default_rate_limit: 5,
        rate_limit_window: 60,
        total_keys_created: u32::MAX,
        active_keys: 1,
        created_at: 0,
    };
    let mut k = ApiKey {
        service: OWNER,
        key_hash: HASH_A,
        label: String::from("k"),
        permissions: 1,
        rate_limit: 5,
        rate_limit_window: 60,
        window_start: 0,
        window_usage: 0,
        total_usage: u64::MAX,
        created_at: 0,
        last_used_at: 0,
        expires_at: 0,
        revoked: false,
    };
    let r = k.record_usage(&svc, &OWNER, 1);
    assert_eq!(r.unwrap_err(), ApiKeyError::Overflow);
    assert_eq!(k.total_usage, u64::MAX);
    assert_eq!(k.window_usage, 0);
    let r = k.rotate_key(&mut svc, &OWNER, HASH_B, None, 1);
    assert_eq!(r.unwrap_err(), ApiKeyError::Overflow);
    assert!(!k.revoked);
    let r = ApiKey::create_key(
        &mut svc,
        &OWNER,
        HASH_B,
        String::from("k2"),
        1,
        None,
        None,
        1,
    );
    assert_eq!(r.unwrap_err(), ApiKeyError::Overflow);
    assert_eq!(svc.total_keys_created, u32::MAX);
    assert_eq!(svc.active_keys, 1);
}

#[test]
fn decrement_of_an_empty_active_count_fails_closed() {
    // revoking or closing an Active key while the service counts zero can
    // only mean inconsistent records; the engine refuses rather than wrap
    let mut svc = ServiceConfig {
        owner: OWNER,
        name: String::from("svc"),
        max_keys: 10,
        default_rate_limit: 5,
        rate_limit_window: 60,
        total_keys_created: 1,
        active_keys: 0,
        created_at: 0,
    };
    let mut k = ApiKey {
        service: OWNER,
        key_hash: HASH_A,
        label: String::from("k"),
        permissions: 1,
        rate_limit: 5,
        rate_limit_window: 60,
        window_start: 0,
        window_usage: 0,
        total_usage: 0,
        created_at: 0,
        last_used_at: 0,
        expires_at: 0,
        revoked: false,
    };
    assert_eq!(
        k.revoke_key(&mut svc, &OWNER).unwrap_err(),
        ApiKeyError::Overflow
    );
    assert!(!k.revoked);
    assert_eq!(
        k.close_key(&mut svc, &OWNER).unwrap_err(),
        ApiKeyError::Overflow
    );
    assert_eq!(svc.active_keys, 0);
}

#[test]
fn update_service_cannot_shrink_max_keys_below_active() {
    let mut svc = service(10);
    let _k1 = key(&mut svc);
    let (_k2, _) = ApiKey::create_key(
        &mut svc,
        &OWNER,
        HASH_B,
        String::from("second"),
        1,
        None,
        None,
        100,
    )
    .unwrap();
    assert_eq!(svc.active_keys, 2);
    let r = svc.update_service(&OWNER, None, Some(1), None, None);
    assert_eq!(r.unwrap_err(), ApiKeyError::InvalidConfig);
    assert!(svc.update_service(&OWNER, None, Some(2), None, None).is_ok());
    assert_eq!(svc.max_keys, 2);
}

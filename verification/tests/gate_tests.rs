//! Tests of the access-control gates and the store helpers.

use auth_core::codec::{verify_jwt, SigningKey};
use auth_core::gate::{auth_gate, bare_guest_gate, bearer_from_header, extract_bearer, guest_gate};
use auth_core::handlers::{admin_dashboard, profile};
use auth_core::identity::{IdentityStore, MemIdentityStore};
use auth_core::manager::{login, logout, register, AuthError, LoginRequest, LogoutRequest, RegisterRequest};
use auth_core::store::{
    blacklist_token, is_blacklisted, remove_from_blacklist, MemStore, RevocationStore,
};

fn key() -> SigningKey {
    SigningKey::new(b"test-signing-secret".to_vec())
}

fn setup() -> (SigningKey, MemIdentityStore, MemStore, String, i64) {
    let k = key();
    let mut ids = MemIdentityStore::new();
    let now = 1_000_000;
    register(
        &mut ids,
        &k,
        now,
        &RegisterRequest {
            name: "A".to_string(),
            email: "a@x.com".to_string(),
            password: "pw".to_string(),
        },
    )
    .unwrap();
    let resp = login(
        &ids,
        &k,
        now,
        &LoginRequest { email: "a@x.com".to_string(), password: "pw".to_string() },
    )
    .unwrap();
    (k, ids, MemStore::new(), resp.access_token, now)
}

#[test]
fn extract_bearer_strips_one_prefix() {
    assert_eq!(extract_bearer("Bearer abc").as_deref(), Some("abc"));
    assert_eq!(extract_bearer("Bearer ").as_deref(), Some(""));
    assert_eq!(extract_bearer("bearer abc"), None);
    assert_eq!(extract_bearer("Basic abc"), None);
    assert_eq!(extract_bearer("Bear"), None);
}

#[test]
fn gate_admits_valid_admin_token() {
    let (k, _ids, store, access, now) = setup();
    let header = format!("Bearer {}", access);
    let claims = auth_gate(&store, &k, now + 1, Some(&header), "Admin").unwrap();
    assert_eq!(claims.role, "Admin");
    assert_eq!(claims.id, 1);
}

#[test]
fn gate_denies_missing_or_malformed_header() {
    let (k, _ids, store, access, now) = setup();
    assert_eq!(
        auth_gate(&store, &k, now, None, "Admin").unwrap_err(),
        AuthError::Unauthorized
    );
    let bad = format!("Token {}", access);
    assert_eq!(
        auth_gate(&store, &k, now, Some(&bad), "Admin").unwrap_err(),
        AuthError::Unauthorized
    );
}

#[test]
fn gate_denies_wrong_role_with_forbidden() {
    let (k, mut ids, store, _access, now) = setup();
    let hash = bcrypt::hash("pw2", 4).unwrap();
    ids.insert_user("B", "b@x.com", &hash, "User").unwrap();
    let resp = login(
        &ids,
        &k,
        now,
        &LoginRequest { email: "b@x.com".to_string(), password: "pw2".to_string() },
    )
    .unwrap();
    let header = format!("Bearer {}", resp.access_token);
    let err = auth_gate(&store, &k, now + 1, Some(&header), "Admin").unwrap_err();
    assert_eq!(err, AuthError::Forbidden);
    assert_eq!(err.status_code(), 403);
}

#[test]
fn revoked_token_is_denied_even_while_otherwise_valid() {
    let (k, _ids, mut store, access, now) = setup();
    let header = format!("Bearer {}", access);
    logout(&mut store, &k, now + 1, &LogoutRequest { token: access.clone() }).unwrap();
    assert!(verify_jwt(&k, now + 2, &access).is_ok());
    assert_eq!(
        auth_gate(&store, &k, now + 2, Some(&header), "Admin").unwrap_err(),
        AuthError::Unauthorized
    );
}

#[test]
fn expired_token_is_denied() {
    let (k, _ids, store, access, now) = setup();
    let header = format!("Bearer {}", access);
    assert_eq!(
        auth_gate(&store, &k, now + 3600, Some(&header), "Admin").unwrap_err(),
        AuthError::Unauthorized
    );
}

#[test]
fn guest_gate_blocks_logged_in_clients_only() {
    let (k, _ids, mut store, access, now) = setup();
    let header = format!("Bearer {}", access);
    assert_eq!(
        guest_gate(&store, &k, now + 1, Some(&header)).unwrap_err(),
        AuthError::Forbidden
    );
    assert!(guest_gate(&store, &k, now + 1, None).is_ok());
    assert!(guest_gate(&store, &k, now + 1, Some("nonsense")).is_ok());
    logout(&mut store, &k, now + 1, &LogoutRequest { token: access.clone() }).unwrap();
    assert!(guest_gate(&store, &k, now + 2, Some(&header)).is_ok());
}

#[test]
fn bare_guest_gate_checks_header_presence_alone() {
    assert!(bare_guest_gate(None).is_ok());
    assert_eq!(bare_guest_gate(Some("anything")).unwrap_err(), AuthError::Forbidden);
}

#[test]
fn bearer_from_header_resolves_claims() {
    let (k, _ids, _store, access, now) = setup();
    let header = format!("Bearer {}", access);
    let bearer = bearer_from_header(&k, now + 1, Some(&header)).unwrap();
    assert_eq!(bearer.0.id, 1);
    assert_eq!(bearer.0.role, "Admin");
    assert_eq!(
        bearer_from_header(&k, now + 1, None).unwrap_err(),
        AuthError::Unauthorized
    );
}

#[test]
fn dashboard_only_for_admins() {
    let (k, _ids, _store, access, now) = setup();
    let header = format!("Bearer {}", access);
    let bearer = bearer_from_header(&k, now + 1, Some(&header)).unwrap();
    let resp = admin_dashboard(&bearer).unwrap();
    assert_eq!(resp.message, "Welcome to the admin dashboard!");
    assert_eq!(resp.user_id, 1);
}

#[test]
fn profile_reports_found_and_missing_identities() {
    let (_k, ids, _store, _access, _now) = setup();
    let found = profile(&ids, 1).unwrap();
    assert_eq!(found.status, "success");
    assert_eq!(found.code, 200);
    let data = found.data.unwrap();
    assert_eq!(data.email, "a@x.com");
    assert_eq!(data.role, "Admin");
    let missing = profile(&ids, 2).unwrap();
    assert_eq!(missing.status, "error");
    assert_eq!(missing.code, 404);
    assert!(missing.data.is_none());
}

#[test]
fn store_helpers_roundtrip() {
    let mut store = MemStore::new();
    assert!(!is_blacklisted(&store, "tok").unwrap());
    blacklist_token(&mut store, "tok", 2_000, 1_000).unwrap();
    assert!(is_blacklisted(&store, "tok").unwrap());
    remove_from_blacklist(&mut store, "tok").unwrap();
    assert!(!is_blacklisted(&store, "tok").unwrap());
}

#[test]
fn blacklisting_an_expired_token_is_a_successful_no_op() {
    let mut store = MemStore::new();
    blacklist_token(&mut store, "tok", 1_000, 1_000).unwrap();
    assert!(!is_blacklisted(&store, "tok").unwrap());
}

#[test]
fn store_put_get_exists_delete() {
    let mut store = MemStore::new();
    store.put("k", "v1", 60).unwrap();
    assert_eq!(store.get("k").unwrap().as_deref(), Some("v1"));
    assert!(store.key_exists("k").unwrap());
    store.put("k", "v2", 60).unwrap();
    assert_eq!(store.get("k").unwrap().as_deref(), Some("v2"));
    store.delete("k").unwrap();
    assert_eq!(store.get("k").unwrap(), None);
    assert!(!store.key_exists("k").unwrap());
}

//! Tests of the register/login/refresh/logout/verify-email protocol with
//! the in-memory stores and the real hashing and signing backends.

use auth_core::codec::SigningKey;
use auth_core::identity::{IdentityStore, MemIdentityStore};
use auth_core::manager::{
    login, logout, refresh_token, register, verify_email, AuthError, LoginRequest, LogoutRequest,
    RefreshTokenRequest, RegisterRequest,
};
use auth_core::manager::error_response;
use auth_core::store::MemStore;

fn key() -> SigningKey {
    SigningKey::new(b"test-signing-secret".to_vec())
}

fn reg_request() -> RegisterRequest {
    RegisterRequest {
        name: "A".to_string(),
        email: "a@x.com".to_string(),
        password: "pw".to_string(),
    }
}

#[test]
fn register_returns_two_distinct_nonempty_tokens() {
    let k = key();
    let mut ids = MemIdentityStore::new();
    let now = 1_000_000;
    let out = register(&mut ids, &k, now, &reg_request()).unwrap();
    assert!(!out.auth.access_token.is_empty());
    assert!(!out.auth.refresh_token.is_empty());
    assert_ne!(out.auth.access_token, out.auth.refresh_token);
    assert_eq!(out.auth.token_type, "Bearer");
    assert!(!out.verification_token.is_empty());
}

#[test]
fn register_same_email_again_conflicts() {
    let k = key();
    let mut ids = MemIdentityStore::new();
    let now = 1_000_000;
    register(&mut ids, &k, now, &reg_request()).unwrap();
    let err = register(&mut ids, &k, now + 5, &reg_request()).unwrap_err();
    assert_eq!(err, AuthError::Conflict);
    assert_eq!(err.status_code(), 409);
}

#[test]
fn login_with_correct_credentials_succeeds() {
    let k = key();
    let mut ids = MemIdentityStore::new();
    let now = 1_000_000;
    register(&mut ids, &k, now, &reg_request()).unwrap();
    let resp = login(
        &ids,
        &k,
        now + 10,
        &LoginRequest { email: "a@x.com".to_string(), password: "pw".to_string() },
    )
    .unwrap();
    assert!(!resp.access_token.is_empty());
    assert!(!resp.refresh_token.is_empty());
    assert_eq!(resp.token_type, "Bearer");
}

#[test]
fn login_never_distinguishes_unknown_email_from_wrong_password() {
    let k = key();
    let mut ids = MemIdentityStore::new();
    let now = 1_000_000;
    register(&mut ids, &k, now, &reg_request()).unwrap();
    let unknown = login(
        &ids,
        &k,
        now,
        &LoginRequest { email: "b@x.com".to_string(), password: "pw".to_string() },
    )
    .unwrap_err();
    let wrong_pw = login(
        &ids,
        &k,
        now,
        &LoginRequest { email: "a@x.com".to_string(), password: "nope".to_string() },
    )
    .unwrap_err();
    assert_eq!(unknown, wrong_pw);
    assert_eq!(unknown.status_code(), 401);
    assert_eq!(wrong_pw.status_code(), 401);
    assert_eq!(unknown.message(), wrong_pw.message());
    assert_eq!(unknown.message(), "Wrong email or password.");
}

#[test]
fn refresh_is_single_use() {
    let k = key();
    let mut ids = MemIdentityStore::new();
    let mut store = MemStore::new();
    let now = 1_000_000;
    let out = register(&mut ids, &k, now, &reg_request()).unwrap();
    let req = RefreshTokenRequest { refresh_token: out.auth.refresh_token.clone() };
    let fresh = refresh_token(&mut store, &k, now + 60, &req).unwrap();
    assert_ne!(fresh.refresh_token, out.auth.refresh_token);
    assert_ne!(fresh.access_token, out.auth.refresh_token);
    let err = refresh_token(&mut store, &k, now + 120, &req).unwrap_err();
    assert_eq!(err, AuthError::Unauthorized);
}

#[test]
fn refresh_of_invalid_token_is_unauthorized() {
    let k = key();
    let mut store = MemStore::new();
    let err = refresh_token(
        &mut store,
        &k,
        1_000_000,
        &RefreshTokenRequest { refresh_token: "junk".to_string() },
    )
    .unwrap_err();
    assert_eq!(err, AuthError::Unauthorized);
}

#[test]
fn logout_is_idempotent() {
    let k = key();
    let mut ids = MemIdentityStore::new();
    let mut store = MemStore::new();
    let now = 1_000_000;
    let out = register(&mut ids, &k, now, &reg_request()).unwrap();
    let req = LogoutRequest { token: out.auth.access_token.clone() };
    let first = logout(&mut store, &k, now + 1, &req).unwrap();
    assert!(first.status);
    assert_eq!(first.message, "Logout successful.");
    let second = logout(&mut store, &k, now + 2, &req).unwrap();
    assert!(second.status);
    assert_eq!(second.message, "Logout successful.");
}

#[test]
fn logout_of_expired_token_is_unauthorized() {
    let k = key();
    let mut ids = MemIdentityStore::new();
    let mut store = MemStore::new();
    let now = 1_000_000;
    let out = register(&mut ids, &k, now, &reg_request()).unwrap();
    let req = LogoutRequest { token: out.auth.access_token.clone() };
    let err = logout(&mut store, &k, now + 3600, &req).unwrap_err();
    assert_eq!(err, AuthError::Unauthorized);
}

#[test]
fn verify_email_flow() {
    let k = key();
    let mut ids = MemIdentityStore::new();
    let now = 1_000_000;
    let out = register(&mut ids, &k, now, &reg_request()).unwrap();
    let resp = verify_email(&mut ids, &k, now + 100, &out.verification_token).unwrap();
    assert!(resp.status);
    assert_eq!(resp.message, "Email successfully verified.");
    let again = verify_email(&mut ids, &k, now + 200, &out.verification_token).unwrap_err();
    assert_eq!(again, AuthError::BadRequest);
    assert_eq!(again.status_code(), 400);
}

#[test]
fn verify_email_rejects_access_token() {
    let k = key();
    let mut ids = MemIdentityStore::new();
    let now = 1_000_000;
    let out = register(&mut ids, &k, now, &reg_request()).unwrap();
    let err = verify_email(&mut ids, &k, now + 1, &out.auth.access_token).unwrap_err();
    assert_eq!(err, AuthError::BadRequest);
}

#[test]
fn verify_email_of_unknown_subject_is_not_found() {
    let k = key();
    let mut ids = MemIdentityStore::new();
    let now = 1_000_000;
    let tok = auth_core::codec::create_email_verification_jwt(&k, now, 999, 86400).unwrap();
    let err = verify_email(&mut ids, &k, now + 1, &tok).unwrap_err();
    assert_eq!(err, AuthError::NotFound);
    assert_eq!(err.status_code(), 404);
}

#[test]
fn expired_verification_token_is_bad_request() {
    let k = key();
    let mut ids = MemIdentityStore::new();
    let now = 1_000_000;
    let out = register(&mut ids, &k, now, &reg_request()).unwrap();
    let err = verify_email(&mut ids, &k, now + 86_400, &out.verification_token).unwrap_err();
    assert_eq!(err, AuthError::BadRequest);
}

#[test]
fn registered_identity_has_admin_role_and_hashed_password() {
    let k = key();
    let mut ids = MemIdentityStore::new();
    let now = 1_000_000;
    register(&mut ids, &k, now, &reg_request()).unwrap();
    let user = ids.find_by_email("a@x.com").unwrap().unwrap();
    assert_eq!(user.name, "A");
    assert_eq!(user.role, "Admin");
    assert!(user.email_verified_at.is_none());
    assert_ne!(user.password_hash, "pw");
    assert!(bcrypt::verify("pw", &user.password_hash).unwrap());
}

#[test]
fn error_taxonomy_maps_to_http_statuses() {
    let cases = [
        (AuthError::Conflict, 409, "Email already exists."),
        (AuthError::HashError, 500, "Password hashing error."),
        (AuthError::Unauthorized, 401, "Wrong email or password."),
        (AuthError::Forbidden, 403, "Access denied."),
        (AuthError::BadRequest, 400, "Invalid or expired verification token."),
        (AuthError::NotFound, 404, "User not found."),
        (AuthError::Internal, 500, "Internal server error."),
    ];
    for (e, code, message) in cases {
        assert_eq!(e.status_code(), code);
        assert_eq!(e.message(), message);
        let resp = error_response(e);
        assert!(!resp.status);
        assert_eq!(resp.message, message);
    }
}

#[test]
fn refresh_in_the_issuance_second_still_returns_fresh_tokens() {
    let k = key();
    let mut ids = MemIdentityStore::new();
    let mut store = MemStore::new();
    let now = 1_000_000;
    let out = register(&mut ids, &k, now, &reg_request()).unwrap();
    let req = RefreshTokenRequest { refresh_token: out.auth.refresh_token.clone() };
    let fresh = refresh_token(&mut store, &k, now, &req).unwrap();
    assert_ne!(fresh.refresh_token, out.auth.refresh_token);
    assert_ne!(fresh.access_token, out.auth.refresh_token);
    let err = refresh_token(&mut store, &k, now, &req).unwrap_err();
    assert_eq!(err, AuthError::Unauthorized);
}

#[test]
fn chained_same_second_rotations_always_differ() {
    let k = key();
    let mut ids = MemIdentityStore::new();
    let mut store = MemStore::new();
    let now = 1_000_000;
    let out = register(&mut ids, &k, now, &reg_request()).unwrap();
    let mut current = out.auth.refresh_token.clone();
    for _ in 0..3 {
        let req = RefreshTokenRequest { refresh_token: current.clone() };
        let fresh = refresh_token(&mut store, &k, now, &req).unwrap();
        assert_ne!(fresh.refresh_token, current);
        assert_ne!(fresh.access_token, current);
        current = fresh.refresh_token;
    }
}

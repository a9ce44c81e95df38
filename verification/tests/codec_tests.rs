//! Tests of the token codec against the real signing backend.

use auth_core::codec::{
    create_email_verification_jwt, create_jwt, verify_email_verification_jwt, verify_jwt,
    SigningKey, TokenError, ACCESS_TTL_SECONDS,
};

fn key() -> SigningKey {
    SigningKey::new(b"test-signing-secret".to_vec())
}

#[test]
fn issued_token_verifies_before_ttl() {
    let k = key();
    let now = 1_000_000;
    let tok = create_jwt(&k, now, 42, "User", 3600).unwrap();
    assert!(!tok.is_empty());
    let claims = verify_jwt(&k, now + 3599, &tok).unwrap();
    assert_eq!(claims.id, 42);
    assert_eq!(claims.sub, 42);
    assert_eq!(claims.role, "User");
    assert_eq!(claims.exp, now + 3600);
}

#[test]
fn issued_token_expired_after_ttl() {
    let k = key();
    let now = 1_000_000;
    let tok = create_jwt(&k, now, 42, "User", 3600).unwrap();
    let err = verify_jwt(&k, now + 3600, &tok).unwrap_err();
    assert_eq!(err, TokenError::Expired);
    let err = verify_jwt(&k, now + 100_000, &tok).unwrap_err();
    assert_eq!(err, TokenError::Expired);
}

#[test]
fn negative_ttl_is_expired_never_invalid_signature() {
    let k = key();
    let now = 1_000_000;
    let tok = create_jwt(&k, now, 7, "Admin", -1).unwrap();
    let err = verify_jwt(&k, now, &tok).unwrap_err();
    assert_eq!(err, TokenError::Expired);
}

#[test]
fn wrong_key_is_invalid_signature() {
    let k = key();
    let other = SigningKey::new(b"another-secret".to_vec());
    let now = 1_000_000;
    let tok = create_jwt(&k, now, 7, "Admin", 3600).unwrap();
    let err = verify_jwt(&other, now, &tok).unwrap_err();
    assert_eq!(err, TokenError::InvalidSignature);
}

#[test]
fn garbage_is_malformed() {
    let k = key();
    let err = verify_jwt(&k, 1_000_000, "not-a-token").unwrap_err();
    assert_eq!(err, TokenError::Malformed);
}

#[test]
fn spliced_payload_is_invalid_signature() {
    let k = key();
    let now = 1_000_000;
    let t1 = create_jwt(&k, now, 1, "Admin", 3600).unwrap();
    let t2 = create_jwt(&k, now, 2, "User", 7200).unwrap();
    let p1: Vec<&str> = t1.split('.').collect();
    let p2: Vec<&str> = t2.split('.').collect();
    let spliced = format!("{}.{}.{}", p1[0], p2[1], p1[2]);
    let err = verify_jwt(&k, now, &spliced).unwrap_err();
    assert_eq!(err, TokenError::InvalidSignature);
}

#[test]
fn email_token_roundtrip_and_expiry() {
    let k = key();
    let now = 1_000_000;
    let tok = create_email_verification_jwt(&k, now, 9, 86400).unwrap();
    let claims = verify_email_verification_jwt(&k, now + 86399, &tok).unwrap();
    assert_eq!(claims.id, 9);
    assert_eq!(claims.exp, now + 86400);
    let err = verify_email_verification_jwt(&k, now + 86400, &tok).unwrap_err();
    assert_eq!(err, TokenError::Expired);
}

#[test]
fn claim_shapes_are_disjoint() {
    let k = key();
    let now = 1_000_000;
    let access = create_jwt(&k, now, 9, "Admin", 3600).unwrap();
    let email = create_email_verification_jwt(&k, now, 9, 86400).unwrap();
    assert_eq!(
        verify_email_verification_jwt(&k, now, &access).unwrap_err(),
        TokenError::Malformed
    );
    assert_eq!(verify_jwt(&k, now, &email).unwrap_err(), TokenError::Malformed);
}

#[test]
fn issuance_is_deterministic_in_claims_and_key() {
    let k = key();
    let now = 1_000_000;
    let a = create_jwt(&k, now, 5, "User", ACCESS_TTL_SECONDS).unwrap();
    let b = create_jwt(&k, now, 5, "User", ACCESS_TTL_SECONDS).unwrap();
    assert_eq!(a, b);
    let c = create_jwt(&k, now + 1, 5, "User", ACCESS_TTL_SECONDS).unwrap();
    assert_ne!(a, c);
}

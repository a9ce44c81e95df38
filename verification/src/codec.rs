//! Token codec: issues and verifies signed, time-bounded claims.
//!
//! A token is a self-contained signed string. Signing and the wire encoding
//! are done by the `jsonwebtoken` crate (HS256 with a symmetric secret);
//! the expiry judgement and the error taxonomy are verified code here.
//! Two claim shapes are in use: access/refresh claims (subject, role,
//! expiry) and a deliberately disjoint email-verification shape (subject
//! and expiry only), so that one kind of token is never accepted as the
//! other.

use std::collections::BTreeMap;
use jsonwebtoken::errors::ErrorKind as ErrKind;
use jsonwebtoken::{decode, DecodingKey, EncodingKey, Header, Validation};

use vstd::prelude::*;

verus! {

/// Seconds of validity of an access token.
pub const ACCESS_TTL_SECONDS: i64 = 3600;

/// Seconds of validity of a refresh token.
pub const REFRESH_TTL_SECONDS: i64 = 2592000;

/// Seconds of validity of an email-verification token.
pub const VERIFY_EMAIL_TTL_SECONDS: i64 = 86400;

/// Request-time outcome of verifying a token, plus the startup
/// misconfiguration case for issuance.
#[derive(Clone, Copy, PartialEq, Eq, Structural, Debug)]
pub enum TokenError {
    /// The string does not decode to the expected claims shape.
    Malformed,
    /// The signature does not match the claims.
    InvalidSignature,
    /// The claims are well signed but `exp` is not in the future.
    Expired,
    /// The startup-misconfiguration slot of the taxonomy: issuance
    /// without a usable signing key. With the key passed in by value it
    /// is provably never returned here.
    ConfigError,
}

/// What raw decoding can report, before expiry is judged.
#[derive(Clone, Copy, PartialEq, Eq, Structural, Debug)]
pub enum DecodeFailure {
    /// Not the expected shape (bad framing, missing or foreign fields).
    Malformed,
    /// Well formed, but the signature does not match.
    BadSignature,
}

/// Claims carried by an access or refresh token.
#[derive(Debug)]
pub struct JwtClaims {
    /// Subject (user) id.
    pub id: u64,
    /// Subject id again, mirroring the conventional `sub` claim.
    pub sub: u64,
    /// Role of the subject at issuance.
    pub role: String,
    /// Expiry as unix seconds; the token is dead once `exp <= now`.
    pub exp: i64,
}

/// Mathematical image of `JwtClaims`.
pub struct ClaimsView {
    pub id: u64,
    pub sub: u64,
    pub role: Seq<char>,
    pub exp: i64,
}

impl View for JwtClaims {
    type V = ClaimsView;

    open spec fn view(&self) -> ClaimsView {
        ClaimsView { id: self.id, sub: self.sub, role: self.role@, exp: self.exp }
    }
}

/// Claims carried by an email-verification token: no role, and a field
/// layout disjoint from `JwtClaims` so the two cannot be confused.
#[derive(Debug)]
pub struct EmailClaims {
    /// Subject (user) id awaiting verification.
    pub id: u64,
    /// Expiry as unix seconds.
    pub exp: i64,
}

/// Mathematical image of `EmailClaims`.
pub struct EmailClaimsView {
    pub id: u64,
    pub exp: i64,
}

impl View for EmailClaims {
    type V = EmailClaimsView;

    open spec fn view(&self) -> EmailClaimsView {
        EmailClaimsView { id: self.id, exp: self.exp }
    }
}

/// The process-wide symmetric signing key, loaded once at startup and
/// passed by reference into every codec call.
#[derive(Debug)]
pub struct SigningKey {
    bytes: Vec<u8>,
}

impl View for SigningKey {
    type V = Seq<u8>;

    closed spec fn view(&self) -> Seq<u8> {
        self.bytes@
    }
}

impl SigningKey {
    /// Wrap raw secret bytes as the signing key.
    pub fn new(bytes: Vec<u8>) -> (r: SigningKey)
        ensures
            r@ == bytes@,
    {
        SigningKey { bytes }
    }
}

/// The token that `jsonwebtoken::encode` produces for the access/refresh
/// claims shape with the given fields and HS256 secret. `prev` is the
/// rotation lineage: the refresh token that this token superseded, or
/// empty for a token born at register/login. The encoding is a pure
/// function of these arguments.
pub uninterp spec fn token_of(id: u64, role: Seq<char>, exp: i64, prev: Seq<char>, key: Seq<u8>) -> Seq<char>;

/// What decoding an arbitrary string as an access/refresh token with the
/// given HS256 secret yields: a pure function of the string and the key.
pub uninterp spec fn decode_of(token: Seq<char>, key: Seq<u8>) -> Result<
    ClaimsView,
    DecodeFailure,
>;

/// The token that `jsonwebtoken::encode` produces for the
/// email-verification claims shape.
pub uninterp spec fn email_token_of(id: u64, exp: i64, key: Seq<u8>) -> Seq<char>;

/// What decoding an arbitrary string as an email-verification token
/// yields.
pub uninterp spec fn email_decode_of(token: Seq<char>, key: Seq<u8>) -> Result<
    EmailClaimsView,
    DecodeFailure,
>;

/// Relies on `jsonwebtoken::encode` (HS256, claims as a JSON object of
/// string fields `id`, `role`, `exp`, `prev`): deterministic in claims
/// and key, and `jwt_decode` below accepts exactly what it produced, with
/// `sub` mirroring `id`. The email-verification decoder rejects this
/// shape, whose fields it lacks. It always succeeds: an HS256 secret of
/// any length yields a signer, the HMAC cannot fail, and a map of strings
/// always serializes. The token is strictly longer than `prev`: the
/// payload embeds `prev` between quotes (at least as many bytes as `prev`
/// has characters) and its base64 form does not shrink.
#[verifier::external_body]
fn jwt_encode(id: u64, role: &str, exp: i64, prev: &str, key: &SigningKey) -> (r: Option<String>)
    ensures
        r is Some,
        (match r {
            Some(t) => t@ == token_of(id, role@, exp, prev@, key@) && t@.len() > prev@.len()
                && decode_of(t@, key@) == Ok::<ClaimsView, DecodeFailure>(
                ClaimsView { id, sub: id, role: role@, exp },
            ) && email_decode_of(t@, key@) == Err::<EmailClaimsView, DecodeFailure>(
                DecodeFailure::Malformed,
            ),
            None => true,
        }),
{
    let mut m = BTreeMap::new();
    m.insert("id", id.to_string());
    m.insert("role", role.to_string());
    m.insert("exp", exp.to_string());
    m.insert("prev", prev.to_string());
    let k = EncodingKey::from_secret(&key.bytes);
    jsonwebtoken::encode(&Header::default(), &m, &k).ok()
}

/// Relies on `jsonwebtoken::decode` (HS256; expiry and required-claims
/// checks disabled, so the outcome is a pure function of token and key):
/// the claims when the signature matches and the payload carries the
/// string fields of the access/refresh shape, nothing otherwise.
#[verifier::external_body]
fn jwt_decode_ok(token: &str, key: &SigningKey) -> (r: Option<JwtClaims>)
    ensures
        (match r {
            Some(c) => decode_of(token@, key@) == Ok::<ClaimsView, DecodeFailure>(c@),
            None => decode_of(token@, key@) is Err,
        }),
{
    let mut v = Validation::default();
    v.validate_exp = false;
    v.required_spec_claims.clear();
    let k = DecodingKey::from_secret(&key.bytes);
    let mut d = decode::<BTreeMap<String, String>>(token, &k, &v).ok()?.claims;
    let id = d.remove("id").and_then(|s| s.parse().ok())?;
    let exp = d.remove("exp").and_then(|s| s.parse().ok())?;
    Some(JwtClaims { id, sub: id, role: d.remove("role")?, exp })
}

/// Relies on `jsonwebtoken::decode` reporting `InvalidSignature` exactly
/// when the token's signature does not match under the key; the check
/// runs before the payload shape is read, so it is one and the same for
/// both claim shapes.
#[verifier::external_body]
fn jwt_bad_signature(token: &str, key: &SigningKey) -> (r: bool)
    ensures
        r == (decode_of(token@, key@) == Err::<ClaimsView, DecodeFailure>(
            DecodeFailure::BadSignature,
        )),
        r == (email_decode_of(token@, key@) == Err::<EmailClaimsView, DecodeFailure>(
            DecodeFailure::BadSignature,
        )),
{
    let mut v = Validation::default();
    v.validate_exp = false;
    v.required_spec_claims.clear();
    let k = DecodingKey::from_secret(&key.bytes);
    match decode::<BTreeMap<String, String>>(token, &k, &v) {
        Err(e) => matches!(e.kind(), ErrKind::InvalidSignature),
        Ok(_) => false,
    }
}

/// Decode an access/refresh token: a signature mismatch is reported
/// apart, and anything that does not carry the string fields of the
/// access/refresh shape is malformed.
fn jwt_decode(token: &str, key: &SigningKey) -> (r: Result<JwtClaims, DecodeFailure>)
    ensures
        (match r {
            Ok(c) => decode_of(token@, key@) == Ok::<ClaimsView, DecodeFailure>(c@),
            Err(e) => decode_of(token@, key@) == Err::<ClaimsView, DecodeFailure>(e),
        }),
{
    match jwt_decode_ok(token, key) {
        Some(c) => Ok(c),
        None => {
            proof {
                assert(decode_of(token@, key@) == Err::<ClaimsView, DecodeFailure>(
                    decode_of(token@, key@)->Err_0,
                ));
            }
            if jwt_bad_signature(token, key) {
                Err(DecodeFailure::BadSignature)
            } else {
                Err(DecodeFailure::Malformed)
            }
        },
    }
}

/// How a decoded access/refresh token is judged at time `now`: decoding
/// failures keep their kind, and well-signed claims are expired exactly
/// when `exp <= now`.
pub open spec fn spec_verify(decoded: Result<ClaimsView, DecodeFailure>, now: i64) -> Result<
    ClaimsView,
    TokenError,
> {
    match decoded {
        Err(DecodeFailure::Malformed) => Err(TokenError::Malformed),
        Err(DecodeFailure::BadSignature) => Err(TokenError::InvalidSignature),
        Ok(c) => if c.exp <= now {
            Err(TokenError::Expired)
        } else {
            Ok(c)
        },
    }
}

/// Issue an access/refresh token for `user_id` with the given role,
/// expiring `ttl_seconds` from `now` (a non-positive ttl yields an
/// already-expired token) and carrying an empty rotation lineage. Never
/// fails: the HS256 backend signs any claims under any secret, so
/// `ConfigError` stays a dead slot of the taxonomy here.
pub fn create_jwt(key: &SigningKey, now: i64, user_id: u64, role: &str, ttl_seconds: i64) -> (r:
    Result<String, TokenError>)
    requires
        i64::MIN <= now + ttl_seconds <= i64::MAX,
    ensures
        r is Ok,
        r matches Ok(t) ==> t@ == token_of(user_id, role@, (now + ttl_seconds) as i64, ""@, key@),
        r matches Ok(t) ==> t@.len() > 0,
        r matches Ok(t) ==> decode_of(t@, key@) == Ok::<ClaimsView, DecodeFailure>(
            ClaimsView { id: user_id, sub: user_id, role: role@, exp: (now + ttl_seconds) as i64 },
        ),
{
    let exp = now + ttl_seconds;
    match jwt_encode(user_id, role, exp, "", key) {
        Some(t) => Ok(t),
        None => Err(TokenError::ConfigError),
    }
}

/// Issue the rotated successor of refresh token `prev` for `user_id`:
/// the same claims shape, plus `prev` as the rotation lineage, which
/// makes the new token strictly longer than — and so different from —
/// the token it supersedes. Never fails, as `create_jwt`.
pub fn create_rotated_jwt(
    key: &SigningKey,
    now: i64,
    user_id: u64,
    role: &str,
    ttl_seconds: i64,
    prev: &str,
) -> (r: Result<String, TokenError>)
    requires
        i64::MIN <= now + ttl_seconds <= i64::MAX,
    ensures
        r is Ok,
        r matches Ok(t) ==> t@ == token_of(
            user_id,
            role@,
            (now + ttl_seconds) as i64,
            prev@,
            key@,
        ),
        r matches Ok(t) ==> t@.len() > prev@.len(),
        r matches Ok(t) ==> decode_of(t@, key@) == Ok::<ClaimsView, DecodeFailure>(
            ClaimsView { id: user_id, sub: user_id, role: role@, exp: (now + ttl_seconds) as i64 },
        ),
{
    let exp = now + ttl_seconds;
    match jwt_encode(user_id, role, exp, prev, key) {
        Some(t) => Ok(t),
        None => Err(TokenError::ConfigError),
    }
}

/// Verify an access/refresh token at time `now`: `Malformed` when the
/// string does not decode, `InvalidSignature` when the signature does not
/// match, `Expired` when well signed but `exp <= now`, and the claims
/// otherwise.
pub fn verify_jwt(key: &SigningKey, now: i64, token: &str) -> (r: Result<JwtClaims, TokenError>)
    ensures
        r matches Ok(c) ==> spec_verify(decode_of(token@, key@), now) == Ok::<
            ClaimsView,
            TokenError,
        >(c@),
        r matches Err(e) ==> spec_verify(decode_of(token@, key@), now) == Err::<
            ClaimsView,
            TokenError,
        >(e),
{
    match jwt_decode(token, key) {
        Ok(c) => {
            if c.exp <= now {
                Err(TokenError::Expired)
            } else {
                Ok(c)
            }
        },
        Err(DecodeFailure::Malformed) => Err(TokenError::Malformed),
        Err(DecodeFailure::BadSignature) => Err(TokenError::InvalidSignature),
    }
}

/// Relies on `jsonwebtoken::encode` (HS256, claims as a JSON object of
/// string fields `verify_sub`, `exp`): deterministic in claims and key,
/// and `jwt_email_decode` below accepts exactly what it produced. The
/// access/refresh decoder rejects this shape, whose fields it lacks. It
/// always succeeds and always yields a non-empty string, for the same
/// reasons as the access/refresh encoder.
#[verifier::external_body]
fn jwt_email_encode(id: u64, exp: i64, key: &SigningKey) -> (r: Option<String>)
    ensures
        r is Some,
        (match r {
            Some(t) => t@ == email_token_of(id, exp, key@) && t@.len() > 0 && email_decode_of(
                t@,
                key@,
            ) == Ok::<EmailClaimsView, DecodeFailure>(EmailClaimsView { id, exp }) && decode_of(
                t@,
                key@,
            ) == Err::<ClaimsView, DecodeFailure>(DecodeFailure::Malformed),
            None => true,
        }),
{
    let mut m = BTreeMap::new();
    m.insert("verify_sub", id.to_string());
    m.insert("exp", exp.to_string());
    let k = EncodingKey::from_secret(&key.bytes);
    jsonwebtoken::encode(&Header::default(), &m, &k).ok()
}

/// Relies on `jsonwebtoken::decode` (HS256; expiry and required-claims
/// checks disabled, so the outcome is a pure function of token and key):
/// the claims when the signature matches and the payload carries the two
/// string fields of the email-verification shape, nothing otherwise.
#[verifier::external_body]
fn jwt_email_decode_ok(token: &str, key: &SigningKey) -> (r: Option<EmailClaims>)
    ensures
        (match r {
            Some(c) => email_decode_of(token@, key@) == Ok::<EmailClaimsView, DecodeFailure>(c@),
            None => email_decode_of(token@, key@) is Err,
        }),
{
    let mut v = Validation::default();
    v.validate_exp = false;
    v.required_spec_claims.clear();
    let k = DecodingKey::from_secret(&key.bytes);
    let mut d = decode::<BTreeMap<String, String>>(token, &k, &v).ok()?.claims;
    let id = d.remove("verify_sub").and_then(|s| s.parse().ok())?;
    let exp = d.remove("exp").and_then(|s| s.parse().ok())?;
    Some(EmailClaims { id, exp })
}

/// Decode an email-verification token: a signature mismatch is reported
/// apart, and anything that does not carry the two string fields of the
/// email-verification shape is malformed.
fn jwt_email_decode(token: &str, key: &SigningKey) -> (r: Result<EmailClaims, DecodeFailure>)
    ensures
        (match r {
            Ok(c) => email_decode_of(token@, key@) == Ok::<EmailClaimsView, DecodeFailure>(c@),
            Err(e) => email_decode_of(token@, key@) == Err::<EmailClaimsView, DecodeFailure>(e),
        }),
{
    match jwt_email_decode_ok(token, key) {
        Some(c) => Ok(c),
        None => {
            proof {
                assert(email_decode_of(token@, key@) == Err::<EmailClaimsView, DecodeFailure>(
                    email_decode_of(token@, key@)->Err_0,
                ));
            }
            if jwt_bad_signature(token, key) {
                Err(DecodeFailure::BadSignature)
            } else {
                Err(DecodeFailure::Malformed)
            }
        },
    }
}

/// How a decoded email-verification token is judged at time `now`.
pub open spec fn spec_verify_email_token(
    decoded: Result<EmailClaimsView, DecodeFailure>,
    now: i64,
) -> Result<EmailClaimsView, TokenError> {
    match decoded {
        Err(DecodeFailure::Malformed) => Err(TokenError::Malformed),
        Err(DecodeFailure::BadSignature) => Err(TokenError::InvalidSignature),
        Ok(c) => if c.exp <= now {
            Err(TokenError::Expired)
        } else {
            Ok(c)
        },
    }
}

/// Issue an email-verification token for `user_id`, expiring
/// `ttl_seconds` from `now`. Never fails, as `create_jwt`.
pub fn create_email_verification_jwt(key: &SigningKey, now: i64, user_id: u64, ttl_seconds: i64) -> (r: Result<String, TokenError>)
    requires
        i64::MIN <= now + ttl_seconds <= i64::MAX,
    ensures
        r is Ok,
        r matches Ok(t) ==> t@ == email_token_of(user_id, (now + ttl_seconds) as i64, key@)
            && t@.len() > 0 && email_decode_of(t@, key@) == Ok::<EmailClaimsView, DecodeFailure>(
            EmailClaimsView { id: user_id, exp: (now + ttl_seconds) as i64 },
        ),
{
    let exp = now + ttl_seconds;
    match jwt_email_encode(user_id, exp, key) {
        Some(t) => Ok(t),
        None => Err(TokenError::ConfigError),
    }
}

/// Verify an email-verification token at time `now`, with the same error
/// taxonomy as `verify_jwt`.
pub fn verify_email_verification_jwt(key: &SigningKey, now: i64, token: &str) -> (r: Result<
    EmailClaims,
    TokenError,
>)
    ensures
        r matches Ok(c) ==> spec_verify_email_token(email_decode_of(token@, key@), now) == Ok::<
            EmailClaimsView,
            TokenError,
        >(c@),
        r matches Err(e) ==> spec_verify_email_token(email_decode_of(token@, key@), now) == Err::<
            EmailClaimsView,
            TokenError,
        >(e),
{
    match jwt_email_decode(token, key) {
        Ok(c) => {
            if c.exp <= now {
                Err(TokenError::Expired)
            } else {
                Ok(c)
            }
        },
        Err(DecodeFailure::Malformed) => Err(TokenError::Malformed),
        Err(DecodeFailure::BadSignature) => Err(TokenError::InvalidSignature),
    }
}

} // verus!

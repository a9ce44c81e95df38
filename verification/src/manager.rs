//! Credential manager: the register/login/refresh/logout/verify-email
//! protocol, combining the token codec, the password hasher, the identity
//! store and the revocation store.
//!
//! All store and codec failures are caught here and translated to the
//! error taxonomy; login deliberately answers alike for an unknown email
//! and a wrong password, and refresh rotation only counts as committed
//! once the revocation write of the old token has succeeded.

use vstd::prelude::*;

use crate::codec::{
    SigningKey, ClaimsView, DecodeFailure, token_of, decode_of, email_token_of,
    email_decode_of, spec_verify, spec_verify_email_token, create_rotated_jwt, verify_jwt,
    create_email_verification_jwt, verify_email_verification_jwt, ACCESS_TTL_SECONDS,
    REFRESH_TTL_SECONDS, VERIFY_EMAIL_TTL_SECONDS,
};
use crate::hashing::{bcrypt_matches, hash_password, check_password};
use crate::store::{RevocationStore, blacklist_token, revoked_marker};
use crate::identity::{IdentityStore, UserView, verified_view};

verus! {

/// The error taxonomy of the protocol, as surfaced to the transport
/// layer.
#[derive(Clone, Copy, PartialEq, Eq, Structural, Debug)]
pub enum AuthError {
    /// Registration email collision.
    Conflict,
    /// Password hashing failed.
    HashError,
    /// Bad credentials, or a revoked, invalid or expired token; never
    /// says which.
    Unauthorized,
    /// Valid credentials but a role the route does not admit.
    Forbidden,
    /// Verification edge cases: bad or spent verification token.
    BadRequest,
    /// Verification subject does not exist.
    NotFound,
    /// Store or codec misconfiguration, or a transient store failure.
    Internal,
}

impl AuthError {
    /// The HTTP status this error surfaces as.
    pub open spec fn spec_status_code(self) -> u16 {
        match self {
            AuthError::Conflict => 409,
            AuthError::HashError => 500,
            AuthError::Unauthorized => 401,
            AuthError::Forbidden => 403,
            AuthError::BadRequest => 400,
            AuthError::NotFound => 404,
            AuthError::Internal => 500,
        }
    }

    /// The response message of this error. One fixed message per
    /// variant: in particular, an unknown email and a wrong password
    /// share the `Unauthorized` message verbatim.
    pub open spec fn spec_message(self) -> Seq<char> {
        match self {
            AuthError::Conflict => "Email already exists."@,
            AuthError::HashError => "Password hashing error."@,
            AuthError::Unauthorized => "Wrong email or password."@,
            AuthError::Forbidden => "Access denied."@,
            AuthError::BadRequest => "Invalid or expired verification token."@,
            AuthError::NotFound => "User not found."@,
            AuthError::Internal => "Internal server error."@,
        }
    }

    /// Executable form of [`Self::spec_status_code`].
    pub fn status_code(&self) -> (r: u16)
        ensures
            r == self.spec_status_code(),
    {
        match self {
            AuthError::Conflict => 409,
            AuthError::HashError => 500,
            AuthError::Unauthorized => 401,
            AuthError::Forbidden => 403,
            AuthError::BadRequest => 400,
            AuthError::NotFound => 404,
            AuthError::Internal => 500,
        }
    }

    /// Executable form of [`Self::spec_message`].
    pub fn message(&self) -> (r: String)
        ensures
            r@ == self.spec_message(),
    {
        match self {
            AuthError::Conflict => "Email already exists.".to_owned(),
            AuthError::HashError => "Password hashing error.".to_owned(),
            AuthError::Unauthorized => "Wrong email or password.".to_owned(),
            AuthError::Forbidden => "Access denied.".to_owned(),
            AuthError::BadRequest => "Invalid or expired verification token.".to_owned(),
            AuthError::NotFound => "User not found.".to_owned(),
            AuthError::Internal => "Internal server error.".to_owned(),
        }
    }
}

/// Body of a registration request.
#[derive(Debug)]
pub struct RegisterRequest {
    pub name: String,
    pub email: String,
    pub password: String,
}

/// Body of a login request.
#[derive(Debug)]
pub struct LoginRequest {
    pub email: String,
    pub password: String,
}

/// Body of a logout request.
#[derive(Debug)]
pub struct LogoutRequest {
    pub token: String,
}

/// Body of a token refresh request.
#[derive(Debug)]
pub struct RefreshTokenRequest {
    pub refresh_token: String,
}

/// The token pair handed to a client on success.
#[derive(Debug)]
pub struct AuthResponse {
    pub access_token: String,
    pub refresh_token: String,
    pub token_type: String,
}

/// An error as serialized to a client.
#[derive(Debug)]
pub struct AuthErrorResponse {
    pub status: bool,
    pub message: String,
}

/// Success response of logout.
#[derive(Debug)]
pub struct LogoutResponse {
    pub status: bool,
    pub message: String,
}

/// Success response of email verification.
#[derive(Debug)]
pub struct VerifyResponse {
    pub status: bool,
    pub message: String,
}

/// Build the client-facing response for an error.
pub fn error_response(e: AuthError) -> (r: AuthErrorResponse)
    ensures
        r.status == false,
        r.message@ == e.spec_message(),
{
    AuthErrorResponse { status: false, message: e.message() }
}

/// Whether a login attempt carries good credentials: the email is known
/// and the password matches its stored hash. Everything else is denied,
/// and denied identically.
pub open spec fn login_admitted(
    users: Map<Seq<char>, UserView>,
    email: Seq<char>,
    password: Seq<char>,
) -> bool {
    users.contains_key(email) && bcrypt_matches(password, users[email].password_hash)
}

/// What both tokens of a fresh pair for subject `id` with role `role`
/// issued at `now` decode back to. `prev` is the rotation lineage both
/// tokens carry — the refresh token the pair superseded, or empty for a
/// pair born at register/login; each new token is strictly longer than
/// `prev`, so it never equals the token it replaces.
pub open spec fn fresh_pair_ok(
    resp: AuthResponse,
    id: u64,
    role: Seq<char>,
    now: i64,
    prev: Seq<char>,
    key: Seq<u8>,
) -> bool {
    &&& resp.access_token@ == token_of(id, role, (now + ACCESS_TTL_SECONDS) as i64, prev, key)
    &&& decode_of(resp.access_token@, key) == Ok::<ClaimsView, DecodeFailure>(
        ClaimsView { id, sub: id, role, exp: (now + ACCESS_TTL_SECONDS) as i64 },
    )
    &&& resp.access_token@.len() > prev.len()
    &&& resp.refresh_token@ == token_of(id, role, (now + REFRESH_TTL_SECONDS) as i64, prev, key)
    &&& decode_of(resp.refresh_token@, key) == Ok::<ClaimsView, DecodeFailure>(
        ClaimsView { id, sub: id, role, exp: (now + REFRESH_TTL_SECONDS) as i64 },
    )
    &&& resp.refresh_token@.len() > prev.len()
    &&& resp.token_type@ == "Bearer"@
}

/// Issue an access + refresh pair for `id` with `role` at `now`, with
/// rotation lineage `prev`. Never fails, since issuance cannot.
fn issue_pair(key: &SigningKey, now: i64, id: u64, role: &str, prev: &str) -> (r: Result<
    AuthResponse,
    AuthError,
>)
    requires
        0 <= now,
        now + REFRESH_TTL_SECONDS <= i64::MAX,
    ensures
        r is Ok,
        (match r {
            Ok(resp) => fresh_pair_ok(resp, id, role@, now, prev@, key@),
            Err(_) => false,
        }),
{
    let access = match create_rotated_jwt(key, now, id, role, ACCESS_TTL_SECONDS, prev) {
        Ok(t) => t,
        Err(_) => return Err(AuthError::Internal),
    };
    let refresh = match create_rotated_jwt(key, now, id, role, REFRESH_TTL_SECONDS, prev) {
        Ok(t) => t,
        Err(_) => return Err(AuthError::Internal),
    };
    Ok(AuthResponse { access_token: access, refresh_token: refresh, token_type: "Bearer".to_owned() })
}

/// Whether the identity maps went from `old_by_*` to `new_by_*` by
/// exactly one registration of `name`/`email`/`password`: one fresh
/// record with role `"Admin"`, no verified timestamp and a hash matching
/// the password, inserted under its email and its id.
pub open spec fn registration_written(
    old_by_email: Map<Seq<char>, UserView>,
    old_by_id: Map<u64, UserView>,
    new_by_email: Map<Seq<char>, UserView>,
    new_by_id: Map<u64, UserView>,
    name: Seq<char>,
    email: Seq<char>,
    password: Seq<char>,
) -> bool {
    exists|u: UserView|
        #![auto]
        u.name == name && u.email == email && u.role == "Admin"@ && u.email_verified_at is None
            && bcrypt_matches(password, u.password_hash) && !old_by_id.contains_key(u.id)
            && new_by_email == old_by_email.insert(email, u) && new_by_id == old_by_id.insert(
            u.id,
            u,
        )
}

/// What a successful registration hands back: the token pair for the
/// client, and the email-verification token for the out-of-band
/// verification message.
#[derive(Debug)]
pub struct RegisterOutcome {
    pub auth: AuthResponse,
    pub verification_token: String,
}

/// Register a new identity: `Conflict` when the email is taken,
/// `HashError` when the password cannot be hashed; otherwise the identity
/// is created with role `"Admin"` and no verified timestamp, and a fresh
/// token pair plus an email-verification token are issued for it.
pub fn register<I: IdentityStore>(
    ids: &mut I,
    key: &SigningKey,
    now: i64,
    req: &RegisterRequest,
) -> (r: Result<RegisterOutcome, AuthError>)
    requires
        0 <= now,
        now + REFRESH_TTL_SECONDS <= i64::MAX,
    ensures
        (match r {
            Ok(out) => !old(ids).by_email().contains_key(req.email@) && final(ids).by_email().contains_key(req.email@) && ({
                let u = final(ids).by_email()[req.email@];
                &&& u.name == req.name@
                &&& u.email == req.email@
                &&& u.role == "Admin"@
                &&& u.email_verified_at is None
                &&& bcrypt_matches(req.password@, u.password_hash)
                &&& !old(ids).by_id().contains_key(u.id)
                &&& final(ids).by_email() == old(ids).by_email().insert(req.email@, u)
                &&& final(ids).by_id() == old(ids).by_id().insert(u.id, u)
                &&& fresh_pair_ok(out.auth, u.id, "Admin"@, now, ""@, key@)
                &&& out.verification_token@ == email_token_of(
                    u.id,
                    (now + VERIFY_EMAIL_TTL_SECONDS) as i64,
                    key@,
                )
                &&& out.verification_token@.len() > 0
                &&& email_decode_of(out.verification_token@, key@) == Ok::<_, DecodeFailure>(
                    crate::codec::EmailClaimsView {
                        id: u.id,
                        exp: (now + VERIFY_EMAIL_TTL_SECONDS) as i64,
                    },
                )
            }),
            Err(AuthError::Conflict) => old(ids).by_email().contains_key(req.email@) && *final(ids)
                == *old(ids),
            Err(AuthError::HashError) => !old(ids).by_email().contains_key(req.email@) && *final(ids) == *old(ids),
            Err(AuthError::Internal) => *final(ids) == *old(ids) || registration_written(
                old(ids).by_email(),
                old(ids).by_id(),
                final(ids).by_email(),
                final(ids).by_id(),
                req.name@,
                req.email@,
                req.password@,
            ),
            Err(_) => false,
        }),
{
    match ids.find_by_email(req.email.as_str()) {
        Ok(Some(_)) => {
            return Err(AuthError::Conflict);
        },
        Ok(None) => {},
        Err(_) => {
            return Err(AuthError::Internal);
        },
    }
    let hash = match hash_password(req.password.as_str()) {
        Some(h) => h,
        None => {
            return Err(AuthError::HashError);
        },
    };
    let ghost pre_by_email = ids.by_email();
    let ghost pre_by_id = ids.by_id();
    let user = match ids.insert_user(
        req.name.as_str(),
        req.email.as_str(),
        hash.as_str(),
        "Admin",
    ) {
        Ok(u) => u,
        Err(_) => {
            proof {
                if *ids != *old(ids) {
                    let u = choose|u: UserView|
                        #![auto]
                        u.name == req.name@ && u.email == req.email@ && u.password_hash == hash@
                            && u.role == "Admin"@ && u.email_verified_at is None
                            && !pre_by_id.contains_key(u.id) && ids.by_email()
                            == pre_by_email.insert(req.email@, u) && ids.by_id()
                            == pre_by_id.insert(u.id, u);
                    assert(registration_written(
                        pre_by_email,
                        pre_by_id,
                        ids.by_email(),
                        ids.by_id(),
                        req.name@,
                        req.email@,
                        req.password@,
                    ));
                }
            }
            return Err(AuthError::Internal);
        },
    };
    let auth = match issue_pair(key, now, user.id, "Admin", "") {
        Ok(a) => a,
        Err(e) => {
            return Err(e);
        },
    };
    let verification_token = match create_email_verification_jwt(
        key,
        now,
        user.id,
        VERIFY_EMAIL_TTL_SECONDS,
    ) {
        Ok(t) => t,
        Err(_) => {
            return Err(AuthError::Internal);
        },
    };
    Ok(RegisterOutcome { auth, verification_token })
}

/// Log an identity in: a fresh token pair bound to the stored role on
/// good credentials, and `Unauthorized` — with one and the same error
/// value — whether the email is unknown or the password wrong.
pub fn login<I: IdentityStore>(ids: &I, key: &SigningKey, now: i64, req: &LoginRequest) -> (r:
    Result<AuthResponse, AuthError>)
    requires
        0 <= now,
        now + REFRESH_TTL_SECONDS <= i64::MAX,
    ensures
        (match r {
            Ok(resp) => login_admitted(ids.by_email(), req.email@, req.password@) && fresh_pair_ok(
                resp,
                ids.by_email()[req.email@].id,
                ids.by_email()[req.email@].role,
                now,
                ""@,
                key@,
            ),
            Err(AuthError::Unauthorized) => !login_admitted(
                ids.by_email(),
                req.email@,
                req.password@,
            ),
            Err(AuthError::Internal) => true,
            Err(_) => false,
        }),
{
    let user = match ids.find_by_email(req.email.as_str()) {
        Ok(Some(u)) => u,
        Ok(None) => {
            return Err(AuthError::Unauthorized);
        },
        Err(_) => {
            return Err(AuthError::Internal);
        },
    };
    let good = match check_password(req.password.as_str(), user.password_hash.as_str()) {
        Some(b) => b,
        None => {
            return Err(AuthError::Internal);
        },
    };
    if !good {
        return Err(AuthError::Unauthorized);
    }
    issue_pair(key, now, user.id, user.role.as_str(), "")
}

/// Log a token out by revoking it for its remaining lifetime. Idempotent:
/// revoking an already revoked token succeeds again and leaves the store
/// as it is.
pub fn logout<S: RevocationStore>(store: &mut S, key: &SigningKey, now: i64, req: &LogoutRequest) -> (r: Result<LogoutResponse, AuthError>)
    requires
        0 <= now,
    ensures
        (match r {
            Ok(resp) => (match spec_verify(decode_of(req.token@, key@), now) {
                Ok(_) => final(store).contents() == old(store).contents().insert(
                    req.token@,
                    revoked_marker(),
                ),
                Err(_) => false,
            }) && resp.status == true && resp.message@ == "Logout successful."@,
            Err(AuthError::Unauthorized) => spec_verify(decode_of(req.token@, key@), now) is Err
                && *final(store) == *old(store),
            Err(AuthError::Internal) => spec_verify(decode_of(req.token@, key@), now) is Ok && (
            *final(store) == *old(store) || final(store).contents() == old(store).contents().insert(req.token@, revoked_marker())),
            Err(_) => false,
        }),
{
    let claims = match verify_jwt(key, now, req.token.as_str()) {
        Ok(c) => c,
        Err(_) => {
            return Err(AuthError::Unauthorized);
        },
    };
    match blacklist_token(store, req.token.as_str(), claims.exp, now) {
        Ok(()) => {},
        Err(_) => {
            return Err(AuthError::Internal);
        },
    }
    Ok(LogoutResponse { status: true, message: "Logout successful.".to_owned() })
}

/// Whether a refresh request is admitted: the token verifies at `now`
/// and has no revocation entry.
pub open spec fn refresh_admitted(
    decoded: Result<ClaimsView, DecodeFailure>,
    revoked: Map<Seq<char>, Seq<char>>,
    token: Seq<char>,
    now: i64,
) -> bool {
    spec_verify(decoded, now) is Ok && !revoked.contains_key(token)
}

/// Rotate a refresh token: verify it, refuse it if it has a revocation
/// entry (identically to an invalid token, to avoid signalling replay
/// detection), revoke it for its remaining lifetime, and only once that
/// write has succeeded issue the new pair to the old token's subject and
/// role. On a store failure nothing is issued and the old token has not
/// been consumed. The exclusive borrow of the store makes the check and
/// the revocation write one step against other rotations through the
/// same handle; a backend shared more widely must offer an atomic
/// set-if-absent for the entry to close that window itself.
pub fn refresh_token<S: RevocationStore>(
    store: &mut S,
    key: &SigningKey,
    now: i64,
    req: &RefreshTokenRequest,
) -> (r: Result<AuthResponse, AuthError>)
    requires
        0 <= now,
        now + REFRESH_TTL_SECONDS <= i64::MAX,
    ensures
        (match r {
            Ok(resp) => refresh_admitted(
                decode_of(req.refresh_token@, key@),
                old(store).contents(),
                req.refresh_token@,
                now,
            ) && (match decode_of(req.refresh_token@, key@) {
                Ok(c) => fresh_pair_ok(resp, c.id, c.role, now, req.refresh_token@, key@),
                Err(_) => false,
            }) && resp.refresh_token@ != req.refresh_token@ && resp.access_token@
                != req.refresh_token@ && final(store).contents() == old(store).contents().insert(
                req.refresh_token@,
                revoked_marker(),
            ),
            Err(AuthError::Unauthorized) => !refresh_admitted(
                decode_of(req.refresh_token@, key@),
                old(store).contents(),
                req.refresh_token@,
                now,
            ) && *final(store) == *old(store),
            Err(AuthError::Internal) => spec_verify(decode_of(req.refresh_token@, key@), now)
                is Ok && (*final(store) == *old(store) || final(store).contents() == old(store).contents().insert(req.refresh_token@, revoked_marker())),
            Err(_) => false,
        }),
{
    let claims = match verify_jwt(key, now, req.refresh_token.as_str()) {
        Ok(c) => c,
        Err(_) => {
            return Err(AuthError::Unauthorized);
        },
    };
    let revoked = match store.key_exists(req.refresh_token.as_str()) {
        Ok(b) => b,
        Err(_) => {
            return Err(AuthError::Internal);
        },
    };
    if revoked {
        return Err(AuthError::Unauthorized);
    }
    match blacklist_token(store, req.refresh_token.as_str(), claims.exp, now) {
        Ok(()) => {},
        Err(_) => {
            return Err(AuthError::Internal);
        },
    }
    issue_pair(key, now, claims.id, claims.role.as_str(), req.refresh_token.as_str())
}

/// Verify an email address from a verification token: `BadRequest` on a
/// bad, expired or spent token, `NotFound` when the subject no longer
/// exists, and otherwise the verified timestamp is set to `now`.
pub fn verify_email<I: IdentityStore>(ids: &mut I, key: &SigningKey, now: i64, token: &str) -> (r:
    Result<VerifyResponse, AuthError>)
    ensures
        (match r {
            Ok(resp) => (match spec_verify_email_token(email_decode_of(token@, key@), now) {
                Ok(c) => old(ids).by_id().contains_key(c.id) && old(ids).by_id()[c.id].email_verified_at is None && final(ids).by_id() == old(ids).by_id().insert(c.id, verified_view(old(ids).by_id()[c.id], now)) && final(ids).by_email() == old(ids).by_email().insert(
                    old(ids).by_id()[c.id].email,
                    verified_view(old(ids).by_id()[c.id], now),
                ),
                Err(_) => false,
            }) && resp.status == true && resp.message@ == "Email successfully verified."@,
            Err(AuthError::BadRequest) => (match spec_verify_email_token(
                email_decode_of(token@, key@),
                now,
            ) {
                Ok(c) => old(ids).by_id().contains_key(c.id) && old(ids).by_id()[c.id].email_verified_at is Some,
                Err(_) => true,
            }) && *final(ids) == *old(ids),
            Err(AuthError::NotFound) => (match spec_verify_email_token(
                email_decode_of(token@, key@),
                now,
            ) {
                Ok(c) => !old(ids).by_id().contains_key(c.id),
                Err(_) => false,
            }) && *final(ids) == *old(ids),
            Err(AuthError::Internal) => *final(ids) == *old(ids) || (match spec_verify_email_token(
                email_decode_of(token@, key@),
                now,
            ) {
                Ok(c) => old(ids).by_id().contains_key(c.id) && final(ids).by_id() == old(ids).by_id().insert(c.id, verified_view(old(ids).by_id()[c.id], now)) && final(ids).by_email() == old(ids).by_email().insert(
                    old(ids).by_id()[c.id].email,
                    verified_view(old(ids).by_id()[c.id], now),
                ),
                Err(_) => false,
            }),
            Err(_) => false,
        }),
{
    let claims = match verify_email_verification_jwt(key, now, token) {
        Ok(c) => c,
        Err(_) => {
            return Err(AuthError::BadRequest);
        },
    };
    let user = match ids.find_by_id(claims.id) {
        Ok(u) => u,
        Err(_) => {
            return Err(AuthError::Internal);
        },
    };
    let user = match user {
        Some(u) => u,
        None => {
            return Err(AuthError::NotFound);
        },
    };
    if user.email_verified_at.is_some() {
        return Err(AuthError::BadRequest);
    }
    match ids.set_verified_at(claims.id, now) {
        Ok(()) => Ok(
            VerifyResponse { status: true, message: "Email successfully verified.".to_owned() },
        ),
        Err(_) => Err(AuthError::Internal),
    }
}

} // verus!

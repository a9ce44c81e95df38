//! Access-control gates: request-scoped guards that extract a bearer
//! credential from the authorization header, verify it, check revocation
//! and enforce a required role.
//!
//! An unreachable revocation store fails closed: the auth gate denies,
//! since the store is the sole replay defence. The guest gate inverts the
//! check — it admits only when no valid, non-revoked token is presented —
//! and a store failure again resolves against admitting the request as a
//! guest.

use vstd::prelude::*;

use crate::codec::{SigningKey, JwtClaims, ClaimsView, decode_of, spec_verify, verify_jwt};
use crate::manager::AuthError;
use crate::store::{RevocationStore, is_blacklisted};

verus! {

/// View of an optional header value.
pub open spec fn opt_str_view(h: Option<&str>) -> Option<Seq<char>> {
    match h {
        Some(s) => Some(s@),
        None => None,
    }
}

/// The token carried by an authorization header value: everything after
/// a well-formed `"Bearer "` prefix.
pub open spec fn spec_bearer_token(h: Seq<char>) -> Option<Seq<char>> {
    if h.len() >= 7 && h.subrange(0, 7) == "Bearer "@ {
        Some(h.skip(7))
    } else {
        None
    }
}

/// Whether two strings hold the same characters.
fn str_equal(a: &str, b: &str) -> (r: bool)
    ensures
        r == (a@ == b@),
{
    let x: String = a.to_owned();
    let y: String = b.to_owned();
    x == y
}

/// Extract the bearer token from a header value, or nothing when the
/// header is not prefixed correctly.
pub fn extract_bearer(header: &str) -> (r: Option<String>)
    ensures
        (match r {
            Some(t) => spec_bearer_token(header@) == Some(t@),
            None => spec_bearer_token(header@) is None,
        }),
{
    let n = header.unicode_len();
    if n < 7 {
        return None;
    }
    let prefix = header.substring_char(0, 7);
    if !str_equal(prefix, "Bearer ") {
        return None;
    }
    let token = header.substring_char(7, n).to_owned();
    proof {
        assert(header@.subrange(7, header@.len() as int) =~= header@.skip(7));
    }
    Some(token)
}

/// A verified bearer credential, as handed to downstream handlers.
#[derive(Debug)]
pub struct AuthBearer(pub JwtClaims);

/// How a raw header value resolves to claims, before revocation and role
/// are considered: absent or badly prefixed headers and tokens that do
/// not verify are all refused as `Unauthorized`.
pub open spec fn spec_bearer_claims(header: Option<Seq<char>>, key: Seq<u8>, now: i64) -> Result<
    ClaimsView,
    AuthError,
> {
    match header {
        None => Err(AuthError::Unauthorized),
        Some(h) => match spec_bearer_token(h) {
            None => Err(AuthError::Unauthorized),
            Some(t) => match spec_verify(decode_of(t, key), now) {
                Err(_) => Err(AuthError::Unauthorized),
                Ok(c) => Ok(c),
            },
        },
    }
}

/// Resolve a raw header value to verified claims, without consulting the
/// revocation store.
pub fn bearer_from_header(key: &SigningKey, now: i64, header: Option<&str>) -> (r: Result<
    AuthBearer,
    AuthError,
>)
    ensures
        (match r {
            Ok(b) => spec_bearer_claims(opt_str_view(header), key@, now) == Ok::<
                ClaimsView,
                AuthError,
            >(b.0@),
            Err(e) => spec_bearer_claims(opt_str_view(header), key@, now) == Err::<
                ClaimsView,
                AuthError,
            >(e),
        }),
{
    let h = match header {
        Some(h) => h,
        None => {
            return Err(AuthError::Unauthorized);
        },
    };
    let token = match extract_bearer(h) {
        Some(t) => t,
        None => {
            return Err(AuthError::Unauthorized);
        },
    };
    match verify_jwt(key, now, token.as_str()) {
        Ok(c) => Ok(AuthBearer(c)),
        Err(_) => Err(AuthError::Unauthorized),
    }
}

/// How a request is judged by the auth gate when the store answers:
/// `Unauthorized` for an absent or bad header, an invalid or expired
/// token, or a revoked token (identically, to leak nothing); `Forbidden`
/// for a valid token whose role is not the required one; the claims
/// otherwise.
pub open spec fn spec_gate(
    header: Option<Seq<char>>,
    key: Seq<u8>,
    revoked: Map<Seq<char>, Seq<char>>,
    required_role: Seq<char>,
    now: i64,
) -> Result<ClaimsView, AuthError> {
    match header {
        None => Err(AuthError::Unauthorized),
        Some(h) => match spec_bearer_token(h) {
            None => Err(AuthError::Unauthorized),
            Some(t) => match spec_verify(decode_of(t, key), now) {
                Err(_) => Err(AuthError::Unauthorized),
                Ok(c) => if revoked.contains_key(t) {
                    Err(AuthError::Unauthorized)
                } else if c.role != required_role {
                    Err(AuthError::Forbidden)
                } else {
                    Ok(c)
                },
            },
        },
    }
}

/// Admit a request carrying a valid, unexpired, non-revoked token with
/// the required role; deny everything else. `Internal` arises only when
/// the revocation store cannot be reached, and denies (fails closed).
pub fn auth_gate<S: RevocationStore>(
    store: &S,
    key: &SigningKey,
    now: i64,
    header: Option<&str>,
    required_role: &str,
) -> (r: Result<JwtClaims, AuthError>)
    ensures
        (match r {
            Ok(c) => spec_gate(opt_str_view(header), key@, store.contents(), required_role@, now)
                == Ok::<ClaimsView, AuthError>(c@),
            Err(AuthError::Internal) => spec_bearer_claims(opt_str_view(header), key@, now) is Ok,
            Err(e) => spec_gate(opt_str_view(header), key@, store.contents(), required_role@, now)
                == Err::<ClaimsView, AuthError>(e),
        }),
{
    let h = match header {
        Some(h) => h,
        None => {
            return Err(AuthError::Unauthorized);
        },
    };
    let token = match extract_bearer(h) {
        Some(t) => t,
        None => {
            return Err(AuthError::Unauthorized);
        },
    };
    let claims = match verify_jwt(key, now, token.as_str()) {
        Ok(c) => c,
        Err(_) => {
            return Err(AuthError::Unauthorized);
        },
    };
    let revoked = match is_blacklisted(store, token.as_str()) {
        Ok(b) => b,
        Err(_) => {
            return Err(AuthError::Internal);
        },
    };
    if revoked {
        return Err(AuthError::Unauthorized);
    }
    if !str_equal(claims.role.as_str(), required_role) {
        return Err(AuthError::Forbidden);
    }
    Ok(claims)
}

/// Whether the guest gate admits a request: no header, no well-formed
/// bearer prefix, or a token that does not verify or is revoked.
pub open spec fn spec_guest_admits(
    header: Option<Seq<char>>,
    key: Seq<u8>,
    revoked: Map<Seq<char>, Seq<char>>,
    now: i64,
) -> bool {
    match header {
        None => true,
        Some(h) => match spec_bearer_token(h) {
            None => true,
            Some(t) => !(spec_verify(decode_of(t, key), now) is Ok && !revoked.contains_key(t)),
        },
    }
}

/// Keep authenticated clients off guest-only routes: admits exactly when
/// no valid, non-revoked token is presented, and resolves a store
/// failure against admitting.
pub fn guest_gate<S: RevocationStore>(
    store: &S,
    key: &SigningKey,
    now: i64,
    header: Option<&str>,
) -> (r: Result<(), AuthError>)
    ensures
        r matches Ok(_) ==> spec_guest_admits(opt_str_view(header), key@, store.contents(), now),
        !spec_guest_admits(opt_str_view(header), key@, store.contents(), now) ==> r == Err::<
            (),
            AuthError,
        >(AuthError::Forbidden),
        r matches Err(e) ==> e == AuthError::Forbidden && (match opt_str_view(header) {
            Some(h) => match spec_bearer_token(h) {
                Some(t) => spec_verify(decode_of(t, key@), now) is Ok,
                None => false,
            },
            None => false,
        }),
{
    let h = match header {
        Some(h) => h,
        None => {
            return Ok(());
        },
    };
    let token = match extract_bearer(h) {
        Some(t) => t,
        None => {
            return Ok(());
        },
    };
    match verify_jwt(key, now, token.as_str()) {
        Ok(_) => {},
        Err(_) => {
            return Ok(());
        },
    }
    let revoked = match is_blacklisted(store, token.as_str()) {
        Ok(b) => b,
        Err(_) => false,
    };
    if revoked {
        Ok(())
    } else {
        Err(AuthError::Forbidden)
    }
}

/// Keep any request that carries an authorization header off guest-only
/// routes, without inspecting the header's value.
pub fn bare_guest_gate(header: Option<&str>) -> (r: Result<(), AuthError>)
    ensures
        (match header {
            None => r == Ok::<(), AuthError>(()),
            Some(_) => r == Err::<(), AuthError>(AuthError::Forbidden),
        }),
{
    match header {
        None => Ok(()),
        Some(_) => Err(AuthError::Forbidden),
    }
}

} // verus!

//! Proved statements relating the operations of the library: what
//! issuance guarantees to verification, what revocation guarantees to
//! `auth_gate`, single-use of refresh tokens, idempotence of logout, and
//! the uniformity of login's refusal.

use vstd::prelude::*;

use crate::codec::{ClaimsView, DecodeFailure, TokenError, decode_of, spec_verify};
use crate::gate::{spec_bearer_token, spec_gate};
use crate::hashing::bcrypt_matches;
use crate::identity::UserView;
use crate::manager::{login_admitted, refresh_admitted};
use crate::store::revoked_marker;

verus! {

/// A token that decodes to claims `c` verifies to exactly those claims
/// at any time before `c.exp`, and to `Expired` — never to a signature
/// or shape error — at any time from `c.exp` on. The contract of
/// `create_jwt` supplies the hypothesis for a freshly issued token, with
/// `c.exp == now + ttl_seconds`: the token verifies until its ttl
/// elapses and is expired afterwards, also when the ttl was not positive
/// and the token was born expired.
pub proof fn lemma_issue_then_verify(t: Seq<char>, key: Seq<u8>, c: ClaimsView, at: i64)
    ensures
        decode_of(t, key) == Ok::<ClaimsView, DecodeFailure>(c) ==> spec_verify(
            decode_of(t, key),
            at,
        ) == (if c.exp <= at {
            Err::<ClaimsView, TokenError>(TokenError::Expired)
        } else {
            Ok::<ClaimsView, TokenError>(c)
        }),
{
}

/// A revoked token is always denied. With `t`'s revocation entry in the
/// store contents, as they stand after `logout` or `refresh_token` of
/// `t` comes back successful, `auth_gate` refuses any request bearing
/// `t`, at every time and for every required role, even while `t`'s
/// signature and expiry alone would still pass.
pub proof fn lemma_revoke_then_gate_denies(
    h: Seq<char>,
    t: Seq<char>,
    key: Seq<u8>,
    prior: Map<Seq<char>, Seq<char>>,
    required_role: Seq<char>,
    at: i64,
)
    requires
        spec_bearer_token(h) == Some(t),
    ensures
        spec_gate(Some(h), key, prior.insert(t, revoked_marker()), required_role, at) is Err,
{
}

/// Refresh is single-use: once one refresh of token `t` has succeeded,
/// the store holds `t`'s revocation entry (the success contract of
/// `refresh_token`), so a second refresh of `t` is not admitted at any
/// time — and by the same contract it can only answer `Unauthorized`,
/// or `Internal` on a store failure, never a new pair. That the pair the
/// first call returned is made of strings different from `t` is part of
/// `refresh_token`'s own contract: every rotated token carries `t` as
/// its lineage and is strictly longer than it.
pub proof fn lemma_refresh_single_use(
    t: Seq<char>,
    key: Seq<u8>,
    prior: Map<Seq<char>, Seq<char>>,
    at: i64,
)
    ensures
        !refresh_admitted(decode_of(t, key), prior.insert(t, revoked_marker()), t, at),
{
}

/// Logout is idempotent: by `logout`'s contract its admission never
/// reads the revocation store, so a token that still verifies can be
/// logged out again; and the second revocation write leaves the store
/// contents exactly as the first left them.
pub proof fn lemma_logout_idempotent(prior: Map<Seq<char>, Seq<char>>, t: Seq<char>)
    ensures
        prior.insert(t, revoked_marker()).insert(t, revoked_marker()) == prior.insert(
            t,
            revoked_marker(),
        ),
{
    assert(prior.insert(t, revoked_marker()).insert(t, revoked_marker()) =~= prior.insert(
        t,
        revoked_marker(),
    ));
}

/// Login never distinguishes an unknown email from a wrong password:
/// neither is admitted, and `login`'s contract answers every
/// non-admitted attempt with the one `Unauthorized` value, whose status
/// code and message are fixed.
pub proof fn lemma_login_uniform(
    users: Map<Seq<char>, UserView>,
    email1: Seq<char>,
    pw1: Seq<char>,
    email2: Seq<char>,
    pw2: Seq<char>,
)
    ensures
        !users.contains_key(email1) ==> !login_admitted(users, email1, pw1),
        users.contains_key(email2) && !bcrypt_matches(pw2, users[email2].password_hash)
            ==> !login_admitted(users, email2, pw2),
{
}

} // verus!

use vstd::prelude::*;

use crate::credential::{bcrypt_check, verify_password};
use crate::error::AuthError;
use crate::identity::{
    bearer_header, format_uuid, lemma_issued_token_resolves, resolution, uuid_parse, uuid_text,
};
use crate::text::count_char;
use crate::token::{issued, unix_now, verification, carried, Manager, REFRESH_LIFETIME_SECS};

verus! {

/// The parts of a stored user that the authentication core reads.
#[derive(Debug, Clone)]
pub struct UserRecord {
    pub id: u128,
    pub username: String,
    pub password_hash: String,
    /// Set once the user has been deactivated (soft-deleted).
    pub deleted: bool,
}

/// An access token and a refresh token issued together.
#[derive(Debug, Clone)]
pub struct AuthModel {
    pub access_token: String,
    pub refresh_token: String,
    pub status: Option<String>,
}

/// `pair` holds the access token (one `lifetime` after `now`) and the refresh token
/// (52 weeks after `now`) issued under `key` for `sub`.
pub open spec fn pair_issued(key: Seq<u8>, pair: AuthModel, sub: Seq<char>, now: u64, lifetime: nat) -> bool {
    &&& issued(key, pair.access_token@, sub, (now + lifetime) as u64)
    &&& issued(key, pair.refresh_token@, sub, (now + REFRESH_LIFETIME_SECS) as u64)
}

/// Both expiries of a pair issued at `now` fit in a `u64`.
pub open spec fn pair_fits(now: u64, lifetime: nat) -> bool {
    &&& now + lifetime <= u64::MAX
    &&& now + REFRESH_LIFETIME_SECS <= u64::MAX
}

/// What issuing a pair for `sub` at `now` under `manager` gives.
pub open spec fn pair_outcome(manager: Manager, sub: Seq<char>, now: u64, r: Result<AuthModel, AuthError>) -> bool {
    if pair_fits(now, manager.lifetime()) {
        r matches Ok(p) && pair_issued(manager.key(), p, sub, now, manager.lifetime())
    } else {
        r == Err::<AuthModel, AuthError>(AuthError::TokenIssuanceFailed)
    }
}

/// A record that stands for a live user.
pub open spec fn live(found: Option<UserRecord>) -> bool {
    found matches Some(u) && !u.deleted
}

/// The decision of a login at `now` with `password`, given what the lookup by
/// username found.
pub open spec fn login_outcome(
    manager: Manager,
    found: Option<UserRecord>,
    password: Seq<char>,
    now: u64,
    r: Result<AuthModel, AuthError>,
) -> bool {
    if !live(found) {
        r == Err::<AuthModel, AuthError>(AuthError::UserNotFound)
    } else {
        match bcrypt_check(password, found->0.password_hash@) {
            None => r == Err::<AuthModel, AuthError>(AuthError::StoredHashInvalid),
            Some(false) => r == Err::<AuthModel, AuthError>(AuthError::CredentialsInvalid),
            Some(true) => pair_outcome(manager, uuid_text(found->0.id), now, r),
        }
    }
}

/// The decision of a refresh for `identity` at `now`, given what the lookup by
/// identifier found.
pub open spec fn refresh_outcome(
    manager: Manager,
    identity: u128,
    found: Option<UserRecord>,
    now: u64,
    r: Result<AuthModel, AuthError>,
) -> bool {
    if !live(found) || found->0.id != identity {
        r == Err::<AuthModel, AuthError>(AuthError::UserNotFound)
    } else {
        pair_outcome(manager, uuid_text(identity), now, r)
    }
}

/// Issues the access token and the refresh token for `subject` at `now`; the whole
/// pair fails when either expiry does not fit in a `u64`.
pub fn issue_pair_at(manager: &Manager, subject: &str, now: u64) -> (r: Result<AuthModel, AuthError>)
    ensures
        pair_outcome(*manager, subject@, now, r),
        manager.lifetime() != REFRESH_LIFETIME_SECS ==> (r matches Ok(p) ==> p.access_token@ != p.refresh_token@),
{
    let access_token = match manager.issue_access_at(subject, now) {
        Ok(t) => t,
        Err(e) => return Err(e),
    };
    let refresh_token = match manager.issue_refresh_at(subject, now) {
        Ok(t) => t,
        Err(e) => return Err(e),
    };
    Ok(AuthModel { access_token, refresh_token, status: None })
}

/// Completes a login at `now` once the password check of `user` has answered:
/// tokens only for a matching password.
pub fn finish_login(manager: &Manager, user: &UserRecord, check: Result<bool, AuthError>, now: u64) -> (r: Result<AuthModel, AuthError>)
    ensures
        match check {
            Err(e) => r == Err::<AuthModel, AuthError>(e),
            Ok(false) => r == Err::<AuthModel, AuthError>(AuthError::CredentialsInvalid),
            Ok(true) => pair_outcome(*manager, uuid_text(user.id), now, r),
        },
        r is Ok ==> uuid_parse(uuid_text(user.id)) == Some(user.id),
{
    match check {
        Ok(true) => {
            let subject = format_uuid(user.id);
            issue_pair_at(manager, subject.as_str(), now)
        },
        Ok(false) => Err(AuthError::CredentialsInvalid),
        Err(e) => Err(e),
    }
}

/// Logs in at `now`: `found` is what the lookup by username returned. A missing or
/// deactivated user fails before any password check; a wrong password fails without
/// tokens; otherwise a pair is issued for the user's identifier.
pub fn login_at(manager: &Manager, found: &Option<UserRecord>, password: &str, now: u64) -> (r: Result<AuthModel, AuthError>)
    ensures
        login_outcome(*manager, *found, password@, now, r),
        r is Ok ==> uuid_parse(uuid_text(found->0.id)) == Some(found->0.id),
{
    let user = match found {
        Some(u) => u,
        None => return Err(AuthError::UserNotFound),
    };
    if user.deleted {
        return Err(AuthError::UserNotFound);
    }
    let check = verify_password(password, user.password_hash.as_str());
    finish_login(manager, user, check, now)
}

/// Logs in against the current time.
pub fn login_service(manager: &Manager, found: &Option<UserRecord>, password: &str) -> (r: Result<AuthModel, AuthError>)
    ensures
        exists|now: u64| now <= i64::MAX && #[trigger] login_outcome(*manager, *found, password@, now, r),
        live(*found) && bcrypt_check(password@, found->0.password_hash@) == Some(true) ==> r is Ok,
        r is Ok ==> uuid_parse(uuid_text(found->0.id)) == Some(found->0.id),
{
    let now = unix_now();
    let lifetime = manager.lifetime_secs();
    assert(pair_fits(now, lifetime as nat));
    login_at(manager, found, password, now)
}

/// Issues a new pair at `now` for an identity that was resolved upstream; `found` is
/// what the lookup by that identifier returned. No password is checked.
pub fn refresh_at(manager: &Manager, identity: u128, found: &Option<UserRecord>, now: u64) -> (r: Result<AuthModel, AuthError>)
    ensures
        refresh_outcome(*manager, identity, *found, now, r),
        r is Ok ==> uuid_parse(uuid_text(identity)) == Some(identity),
{
    let user = match found {
        Some(u) => u,
        None => return Err(AuthError::UserNotFound),
    };
    if user.deleted || user.id != identity {
        return Err(AuthError::UserNotFound);
    }
    let subject = format_uuid(identity);
    issue_pair_at(manager, subject.as_str(), now)
}

/// Issues a new pair for a resolved identity against the current time.
pub fn refresh_token_service(manager: &Manager, identity: u128, found: &Option<UserRecord>) -> (r: Result<AuthModel, AuthError>)
    ensures
        exists|now: u64| now <= i64::MAX && #[trigger] refresh_outcome(*manager, identity, *found, now, r),
        live(*found) && found->0.id == identity ==> r is Ok,
        r is Ok ==> uuid_parse(uuid_text(identity)) == Some(identity),
{
    let now = unix_now();
    let lifetime = manager.lifetime_secs();
    assert(pair_fits(now, lifetime as nat));
    refresh_at(manager, identity, found, now)
}

/// The access and the refresh token of one pair are different strings with
/// different expiries, and both carry the same subject, unless the configured
/// lifetime is itself 52 weeks; both verify at the instant of issue when the
/// lifetime is not zero.
pub proof fn lemma_pair_tokens_differ(key: Seq<u8>, pair: AuthModel, sub: Seq<char>, now: u64, lifetime: nat)
    requires
        pair_issued(key, pair, sub, now, lifetime),
        pair_fits(now, lifetime),
        0 < lifetime,
        lifetime != REFRESH_LIFETIME_SECS,
    ensures
        pair.access_token@ != pair.refresh_token@,
        verification(key, pair.access_token@, now) == carried((sub, (now + lifetime) as u64)),
        verification(key, pair.refresh_token@, now) == carried((sub, (now + REFRESH_LIFETIME_SECS) as u64)),
{
}

/// Two pairs issued for one identity at different instants are different, and the
/// earlier pair stays valid until its own expiries: its tokens verify and, sent after
/// a scheme without spaces, resolve to the identity. Issuing never revokes.
pub proof fn lemma_refresh_keeps_earlier_pair(
    key: Seq<u8>,
    first: AuthModel,
    second: AuthModel,
    sub: Seq<char>,
    id: u128,
    scheme: Seq<char>,
    t1: u64,
    t2: u64,
    lifetime: nat,
    now: u64,
)
    requires
        pair_issued(key, first, sub, t1, lifetime),
        pair_issued(key, second, sub, t2, lifetime),
        pair_fits(t1, lifetime),
        pair_fits(t2, lifetime),
        uuid_parse(sub) == Some(id),
        count_char(scheme, ' ') == 0,
        t1 != t2,
    ensures
        now < t1 + lifetime ==> resolution(key, Some(bearer_header(scheme, first.access_token@)), now) == Ok::<
            u128,
            AuthError,
        >(id),
        now < t1 + REFRESH_LIFETIME_SECS ==> resolution(key, Some(bearer_header(scheme, first.refresh_token@)), now)
            == Ok::<u128, AuthError>(id),
        first.access_token@ != second.access_token@,
        first.refresh_token@ != second.refresh_token@,
        now < t1 + lifetime ==> verification(key, first.access_token@, now) == carried((sub, (t1 + lifetime) as u64)),
        now < t1 + REFRESH_LIFETIME_SECS ==> verification(key, first.refresh_token@, now) == carried(
            (sub, (t1 + REFRESH_LIFETIME_SECS) as u64),
        ),
{
    if now < t1 + lifetime {
        lemma_issued_token_resolves(key, first.access_token@, sub, (t1 + lifetime) as u64, id, scheme, now);
    }
    if now < t1 + REFRESH_LIFETIME_SECS {
        lemma_issued_token_resolves(
            key,
            first.refresh_token@,
            sub,
            (t1 + REFRESH_LIFETIME_SECS) as u64,
            id,
            scheme,
            now,
        );
    }
}

} // verus!

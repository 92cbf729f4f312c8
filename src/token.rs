use jsonwebtoken::errors::ErrorKind;
use jsonwebtoken::{decode, encode, Algorithm, DecodingKey, EncodingKey, Header, Validation};
use serde_json::Value;
use vstd::prelude::*;
use vstd::slice::slice_to_vec;
use vstd::utf8::encode_utf8;

use crate::config::{configured_lifetime, lifetime_seconds, unit_named, unit_view, Config};
use crate::error::{AuthError, TokenError};
use crate::text::count_char;

verus! {

/// Fixed lifetime of a refresh token: 52 weeks, in seconds.
pub const REFRESH_LIFETIME_SECS: u64 = 31_449_600;

/// Largest access-token lifetime a configuration can ask for, in seconds.
pub const MAX_LIFETIME_SECS: u64 = 185_542_587_100_800;

/// The identity claims embedded in a token.
#[derive(Debug, Clone)]
pub struct Claims {
    pub sub: String,
    pub exp: u64,
}

/// The compact token that jsonwebtoken::encode produces with an HS256 header for the
/// claims `{"sub": sub, "exp": exp}` under the secret `key`.
pub uninterp spec fn hs256_token(key: Seq<u8>, sub: Seq<char>, exp: u64) -> Seq<char>;

/// What jsonwebtoken::decode, checking an HS256 signature under the secret `key` and
/// requiring an `exp` claim but not comparing it with any clock, makes of `token`:
/// the subject and expiry it carries, or why it was refused.
pub uninterp spec fn hs256_claims(key: Seq<u8>, token: Seq<char>) -> Result<(Seq<char>, u64), TokenError>;

/// A decoding that accepted a token carrying `sub` and `exp`.
pub open spec fn carried(claims: (Seq<char>, u64)) -> Result<(Seq<char>, u64), TokenError> {
    Ok(claims)
}

/// A decoding that refused a token for `reason`.
pub open spec fn refused(reason: TokenError) -> Result<(Seq<char>, u64), TokenError> {
    Err(reason)
}

/// Relies on jsonwebtoken::encode with `Header::new(Algorithm::HS256)` and
/// `EncodingKey::from_secret(key)`: the key family is HMAC as the algorithm asks, the
/// two JSON parts always serialise, and HMAC signing cannot fail, so a token always
/// comes back; decoding it under the same key gives the claims back. Header, claims
/// and signature are each encoded with URL-safe base64 without padding and joined
/// with dots.
#[verifier::external_body]
fn encode_hs256(key: &[u8], sub: &str, exp: u64) -> (r: String)
    ensures
        r@ == hs256_token(key@, sub@, exp),
        hs256_claims(key@, r@) == carried((sub@, exp)),
        compact_form(r@),
{
    let mut claims = serde_json::Map::new();
    claims.insert("sub".to_owned(), Value::from(sub));
    claims.insert("exp".to_owned(), Value::from(exp));
    encode(&Header::new(Algorithm::HS256), &claims, &EncodingKey::from_secret(key)).unwrap_or_default()
}

/// Relies on jsonwebtoken::decode with `DecodingKey::from_secret(key)` and an HS256
/// `Validation` whose expiry check is switched off: the outcome depends on the token
/// and the key alone. A bad signature is reported as such, every other refusal, and
/// claims without a string `sub` or an unsigned `exp`, as a malformed token.
#[verifier::external_body]
fn decode_hs256(key: &[u8], token: &str) -> (r: Result<(String, u64), TokenError>)
    ensures
        match r {
            Ok((s, e)) => hs256_claims(key@, token@) == carried((s@, e)),
            Err(k) => hs256_claims(key@, token@) == refused(k),
        },
{
    let mut validation = Validation::new(Algorithm::HS256);
    validation.validate_exp = false;
    match decode::<serde_json::Map<String, Value>>(token, &DecodingKey::from_secret(key), &validation) {
        Ok(data) => {
            let sub = data.claims.get("sub").and_then(Value::as_str);
            let exp = data.claims.get("exp").and_then(Value::as_u64);
            match (sub, exp) {
                (Some(sub), Some(exp)) => Ok((sub.to_owned(), exp)),
                _ => Err(TokenError::Malformed),
            }
        },
        Err(e) if *e.kind() == ErrorKind::InvalidSignature => Err(TokenError::InvalidSignature),
        Err(_) => Err(TokenError::Malformed),
    }
}

/// Relies on SystemTime::elapsed of UNIX_EPOCH: the whole seconds since 1970, or
/// `None` when the system clock reads earlier than that. Nothing is known of the
/// value.
#[verifier::external_body]
fn seconds_since_epoch() -> (r: Option<u64>) {
    std::time::UNIX_EPOCH.elapsed().ok().map(|d| d.as_secs())
}

/// The current Unix time in seconds, within the range of a signed 64-bit
/// timestamp; a clock set before 1970 reads as 0.
pub fn unix_now() -> (r: u64)
    ensures
        r <= i64::MAX,
{
    match seconds_since_epoch() {
        Some(t) => if t > i64::MAX as u64 {
            i64::MAX as u64
        } else {
            t
        },
        None => 0,
    }
}

/// A character of the URL-safe base64 alphabet.
pub open spec fn base64url_char(c: char) -> bool {
    ||| 'A' <= c <= 'Z'
    ||| 'a' <= c <= 'z'
    ||| '0' <= c <= '9'
    ||| c == '-'
    ||| c == '_'
}

/// The compact form of a signed token: three URL-safe base64 parts joined by dots.
pub open spec fn compact_form(t: Seq<char>) -> bool {
    &&& count_char(t, '.') == 2
    &&& forall|i: int| 0 <= i < t.len() ==> base64url_char(#[trigger] t[i]) || t[i] == '.'
}

/// What verification of `token` under `key` at time `now` yields: the claims when the
/// signature verifies, the claims parse and the expiry lies strictly after `now`.
pub open spec fn verification(key: Seq<u8>, token: Seq<char>, now: u64) -> Result<(Seq<char>, u64), TokenError> {
    match hs256_claims(key, token) {
        Ok((sub, exp)) => if now < exp {
            Ok((sub, exp))
        } else {
            Err(TokenError::Expired)
        },
        Err(k) => Err(k),
    }
}

/// `token` is the token issued under `key` for `sub` with expiry `exp`.
pub open spec fn issued(key: Seq<u8>, token: Seq<char>, sub: Seq<char>, exp: u64) -> bool {
    &&& token == hs256_token(key, sub, exp)
    &&& hs256_claims(key, token) == carried((sub, exp))
    &&& compact_form(token)
}

/// Decides the outcome of a decoding at time `now`.
pub fn check_decoded(decoded: Result<(String, u64), TokenError>, now: u64) -> (r: Result<Claims, TokenError>)
    ensures
        match decoded {
            Ok((sub, exp)) => if now < exp {
                r matches Ok(c) && c.sub@ == sub@ && c.exp == exp
            } else {
                r == Err::<Claims, TokenError>(TokenError::Expired)
            },
            Err(k) => r == Err::<Claims, TokenError>(k),
        },
{
    match decoded {
        Ok((sub, exp)) => {
            if now < exp {
                Ok(Claims { sub, exp })
            } else {
                Err(TokenError::Expired)
            }
        },
        Err(k) => Err(k),
    }
}

/// The signing configuration: a non-empty secret key and the access-token lifetime.
pub struct Manager {
    signing_key: Vec<u8>,
    token_expiry: u64,
}

impl Manager {
    #[verifier::type_invariant]
    spec fn well_formed(&self) -> bool {
        &&& self.signing_key@.len() > 0
        &&& self.token_expiry <= MAX_LIFETIME_SECS
    }

    /// The secret key, as bytes.
    pub closed spec fn key(&self) -> Seq<u8> {
        self.signing_key@
    }

    /// The access-token lifetime in seconds.
    pub closed spec fn lifetime(&self) -> nat {
        self.token_expiry as nat
    }

    /// Builds the signing configuration. It fails exactly when the secret key is
    /// missing or empty, or when a lifetime unit is given that is not one of
    /// `minutes`, `hours`, `days`.
    pub fn new(cfg: &Config) -> (r: Result<Manager, AuthError>)
        ensures
            (cfg.jwt_secret_key matches Some(k) && encode_utf8(k@).len() > 0 && (cfg.access_token_expiry_unit
                matches Some(u) ==> unit_named(u@) is Some)) <==> r is Ok,
            match cfg.jwt_secret_key {
                None => r == Err::<Manager, AuthError>(AuthError::ConfigInvalid),
                Some(k) => match configured_lifetime(cfg.access_token_expiry, unit_view(&cfg.access_token_expiry_unit)) {
                    None => r == Err::<Manager, AuthError>(AuthError::ConfigInvalid),
                    Some(l) => if encode_utf8(k@).len() == 0 {
                        r == Err::<Manager, AuthError>(AuthError::ConfigInvalid)
                    } else {
                        r matches Ok(m) && m.key() == encode_utf8(k@) && m.lifetime() == l
                    },
                },
            },
    {
        let secret: &String = match &cfg.jwt_secret_key {
            Some(k) => k,
            None => return Err(AuthError::ConfigInvalid),
        };
        let lifetime = match lifetime_seconds(cfg.access_token_expiry, &cfg.access_token_expiry_unit) {
            Some(l) => l,
            None => return Err(AuthError::ConfigInvalid),
        };
        let bytes = secret.as_str().as_bytes();
        if bytes.len() == 0 {
            return Err(AuthError::ConfigInvalid);
        }
        Ok(Manager { signing_key: slice_to_vec(bytes), token_expiry: lifetime })
    }

    /// The access-token lifetime in seconds.
    pub fn lifetime_secs(&self) -> (r: u64)
        ensures
            r == self.lifetime(),
            r <= MAX_LIFETIME_SECS,
    {
        proof {
            use_type_invariant(self);
        }
        self.token_expiry
    }

    /// Issues the token that carries `subject` and expires at `expiry`. Issuing is
    /// deterministic, and the token verifies under this configuration at every
    /// instant before `expiry` and is refused as expired from `expiry` on.
    pub fn issue(&self, subject: &str, expiry: u64) -> (r: String)
        ensures
            issued(self.key(), r@, subject@, expiry),
            forall|now: u64| now < expiry ==> verification(self.key(), r@, now) == carried((subject@, expiry)),
            forall|now: u64| expiry <= now ==> verification(self.key(), r@, now) == refused(TokenError::Expired),
    {
        encode_hs256(self.signing_key.as_slice(), subject, expiry)
    }

    /// Checks `token` at time `now`: its signature under this key, its structure,
    /// and that its expiry lies after `now`.
    pub fn parse_and_verify_at(&self, token: &str, now: u64) -> (r: Result<Claims, TokenError>)
        ensures
            match verification(self.key(), token@, now) {
                Ok((sub, exp)) => r matches Ok(c) && c.sub@ == sub && c.exp == exp,
                Err(k) => r == Err::<Claims, TokenError>(k),
            },
    {
        let decoded = decode_hs256(self.signing_key.as_slice(), token);
        check_decoded(decoded, now)
    }

    /// Checks `token` against the current time.
    pub fn parse_and_verify(&self, token: &str) -> (r: Result<Claims, TokenError>)
        ensures
            exists|now: u64|
                now <= i64::MAX && match #[trigger] verification(self.key(), token@, now) {
                    Ok((sub, exp)) => r matches Ok(c) && c.sub@ == sub && c.exp == exp,
                    Err(k) => r == Err::<Claims, TokenError>(k),
                },
    {
        let now = unix_now();
        self.parse_and_verify_at(token, now)
    }
}

impl Manager {
    /// Issues an access token for `subject` that expires one lifetime after `now`.
    /// It fails only when that instant does not fit in a `u64`.
    pub fn issue_access_at(&self, subject: &str, now: u64) -> (r: Result<String, AuthError>)
        ensures
            now + self.lifetime() <= u64::MAX ==> (r matches Ok(t) && issued(
                self.key(),
                t@,
                subject@,
                (now + self.lifetime()) as u64,
            )),
            now + self.lifetime() > u64::MAX ==> r == Err::<String, AuthError>(AuthError::TokenIssuanceFailed),
    {
        let lifetime = self.lifetime_secs();
        match now.checked_add(lifetime) {
            Some(expiry) => Ok(self.issue(subject, expiry)),
            None => Err(AuthError::TokenIssuanceFailed),
        }
    }

    /// Issues a refresh token for `subject` that expires 52 weeks after `now`,
    /// whatever the configured lifetime. It fails only when that instant does not fit
    /// in a `u64`.
    pub fn issue_refresh_at(&self, subject: &str, now: u64) -> (r: Result<String, AuthError>)
        ensures
            now + REFRESH_LIFETIME_SECS <= u64::MAX ==> (r matches Ok(t) && issued(
                self.key(),
                t@,
                subject@,
                (now + REFRESH_LIFETIME_SECS) as u64,
            )),
            now + REFRESH_LIFETIME_SECS > u64::MAX ==> r == Err::<String, AuthError>(AuthError::TokenIssuanceFailed),
    {
        match now.checked_add(REFRESH_LIFETIME_SECS) {
            Some(expiry) => Ok(self.issue(subject, expiry)),
            None => Err(AuthError::TokenIssuanceFailed),
        }
    }

    /// Issues an access token for `user_id` that expires one lifetime from the current
    /// time.
    pub fn new_jwt(&self, user_id: &str) -> (r: Result<String, AuthError>)
        ensures
            r matches Ok(t) && exists|now: u64|
                now <= i64::MAX && #[trigger] issued(self.key(), t@, user_id@, (now + self.lifetime()) as u64),
    {
        let now = unix_now();
        let lifetime = self.lifetime_secs();
        assert(now + lifetime <= u64::MAX);
        let r = self.issue_access_at(user_id, now);
        assert(r matches Ok(t) && issued(self.key(), t@, user_id@, (now + self.lifetime()) as u64));
        r
    }

    /// Issues a refresh token for `user_id` that expires 52 weeks from the current
    /// time.
    pub fn new_refresh_token(&self, user_id: &str) -> (r: Result<String, AuthError>)
        ensures
            r matches Ok(t) && exists|now: u64|
                now <= i64::MAX && #[trigger] issued(self.key(), t@, user_id@, (now + REFRESH_LIFETIME_SECS) as u64),
    {
        let now = unix_now();
        let r = self.issue_refresh_at(user_id, now);
        assert(r matches Ok(t) && issued(self.key(), t@, user_id@, (now + REFRESH_LIFETIME_SECS) as u64));
        r
    }
}

/// A token that was issued for `sub` with expiry `exp` verifies, and yields that
/// subject, at every instant before `exp`.
pub proof fn lemma_issued_token_verifies(key: Seq<u8>, token: Seq<char>, sub: Seq<char>, exp: u64, now: u64)
    requires
        issued(key, token, sub, exp),
        now < exp,
    ensures
        verification(key, token, now) == carried((sub, exp)),
{
}

/// A token whose embedded expiry is not after the verification time is refused as
/// expired: neither accepted nor reported as malformed.
pub proof fn lemma_expired_token_refused(key: Seq<u8>, token: Seq<char>, sub: Seq<char>, exp: u64, now: u64)
    requires
        issued(key, token, sub, exp),
        exp <= now,
    ensures
        verification(key, token, now) == refused(TokenError::Expired),
{
}

} // verus!

use vstd::prelude::*;

use crate::error::AuthError;

verus! {

/// Work factor used when hashing new passwords.
pub const HASH_COST: u32 = 8;

/// What bcrypt::verify reports for `password` against `hash`: whether they match, or
/// `None` when the hash cannot be read.
pub uninterp spec fn bcrypt_check(password: Seq<char>, hash: Seq<char>) -> Option<bool>;

/// Relies on bcrypt::verify: it parses the stored hash (prefix, cost, salt) and
/// recomputes the hash of `password` with that salt, so the outcome depends on the
/// two strings alone.
#[verifier::external_body]
fn bcrypt_verify(password: &str, hash: &str) -> (r: Option<bool>)
    ensures
        r == bcrypt_check(password@, hash@),
{
    bcrypt::verify(password, hash).ok()
}

/// The decimal digit `d`.
pub open spec fn digit(d: int) -> char {
    if d == 0 {
        '0'
    } else if d == 1 {
        '1'
    } else if d == 2 {
        '2'
    } else if d == 3 {
        '3'
    } else if d == 4 {
        '4'
    } else if d == 5 {
        '5'
    } else if d == 6 {
        '6'
    } else if d == 7 {
        '7'
    } else if d == 8 {
        '8'
    } else {
        '9'
    }
}

/// The first seven characters of a `$2b$` hash at work factor `cost`: the version,
/// the cost in two digits and the separators.
pub open spec fn hash_prefix(cost: u32) -> Seq<char> {
    seq!['$', '2', 'b', '$', digit((cost / 10) as int), digit((cost % 10) as int), '$']
}

/// Relies on bcrypt::hash: with a cost in 4..=31 it fails only when the operating
/// system gives no random salt. The string it returns is `$2b$`, the cost in two
/// digits, `$`, 22 characters of salt and 31 of hash (60 in all), and it verifies
/// against the same password.
#[verifier::external_body]
fn bcrypt_hash(password: &str, cost: u32) -> (r: Option<String>)
    requires
        4 <= cost <= 31,
    ensures
        r matches Some(h) ==> bcrypt_check(password@, h@) == Some(true),
        r matches Some(h) ==> h@.len() == 60 && h@.subrange(0, 7) == hash_prefix(cost),
{
    bcrypt::hash(password, cost).ok()
}

/// Checks a plaintext password against a stored salted hash. A mismatch is
/// `Ok(false)`; only a stored hash that cannot be read is an error.
pub fn verify_password(plaintext: &str, stored_hash: &str) -> (r: Result<bool, AuthError>)
    ensures
        match bcrypt_check(plaintext@, stored_hash@) {
            Some(b) => r == Ok::<bool, AuthError>(b),
            None => r == Err::<bool, AuthError>(AuthError::StoredHashInvalid),
        },
{
    match bcrypt_verify(plaintext, stored_hash) {
        Some(b) => Ok(b),
        None => Err(AuthError::StoredHashInvalid),
    }
}

/// Hashes a password with a fresh random salt at the fixed work factor. A hash that
/// comes back is 60 characters long, starts with `$2b$08$` and verifies against the
/// same password.
pub fn hash(password: &str) -> (r: Result<String, String>)
    ensures
        r matches Ok(h) ==> bcrypt_check(password@, h@) == Some(true),
        r matches Ok(h) ==> h@.len() == 60 && h@.subrange(0, 7) == "$2b$08$"@,
{
    match bcrypt_hash(password, HASH_COST) {
        Some(h) => {
            proof {
                reveal_strlit("$2b$08$");
                assert(hash_prefix(HASH_COST) =~= "$2b$08$"@);
            }
            Ok(h)
        },
        None => Err("password hashing failed".to_owned()),
    }
}

} // verus!

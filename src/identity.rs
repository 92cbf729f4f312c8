use vstd::prelude::*;

use crate::error::{AuthError, TokenError};
use crate::text::{
    chars_of, count_char, first_index, lemma_count_absent, lemma_count_concat, lemma_first_index_none,
    lemma_first_index_prefix, suffix_from,
};
use crate::token::{compact_form, issued, refused, unix_now, verification, Manager};

verus! {

/// The identifier that uuid::Uuid::parse_str reads from `s` (as its `u128` value), or
/// `None` when `s` is not a UUID in one of the forms it accepts.
pub uninterp spec fn uuid_parse(s: Seq<char>) -> Option<u128>;

/// The text that uuid's `Display` writes for the identifier `id`: lower-case
/// hexadecimal in the hyphenated 8-4-4-4-12 form.
pub uninterp spec fn uuid_text(id: u128) -> Seq<char>;

/// Relies on uuid::Uuid::parse_str and Uuid::as_u128; parsing depends on the text
/// alone.
#[verifier::external_body]
fn parse_uuid(s: &str) -> (r: Option<u128>)
    ensures
        r == uuid_parse(s@),
{
    uuid::Uuid::parse_str(s).ok().map(|u| u.as_u128())
}

/// Relies on uuid::Uuid::from_u128 and its `Display`; the text depends on the
/// identifier alone, and Uuid::parse_str reads the hyphenated form back.
#[verifier::external_body]
pub(crate) fn format_uuid(id: u128) -> (r: String)
    ensures
        r@ == uuid_text(id),
        uuid_parse(r@) == Some(id),
{
    uuid::Uuid::from_u128(id).to_string()
}

/// The second of exactly two space-separated parts of a header value (the part
/// after the scheme), or `None` when the value does not split into exactly two
/// parts.
pub open spec fn bearer_token(h: Seq<char>) -> Option<Seq<char>> {
    if count_char(h, ' ') == 1 {
        Some(h.subrange(first_index(h, ' ') + 1, h.len() as int))
    } else {
        None
    }
}

/// The caller identity that an `Authorization` header value resolves to under
/// `key` at time `now`.
pub open spec fn resolution(key: Seq<u8>, header: Option<Seq<char>>, now: u64) -> Result<u128, AuthError> {
    match header {
        None => Err(AuthError::AuthorizationMissing),
        Some(h) => match bearer_token(h) {
            None => Err(AuthError::AuthorizationMalformed),
            Some(t) => if t.len() == 0 {
                Err(AuthError::AuthorizationMalformed)
            } else {
                match verification(key, t, now) {
                    Err(TokenError::Expired) => Err(AuthError::TokenExpired),
                    Err(_) => Err(AuthError::AuthorizationInvalid),
                    Ok((sub, _)) => match uuid_parse(sub) {
                        Some(id) => Ok(id),
                        None => Err(AuthError::AuthorizationInvalid),
                    },
                }
            }
        },
    }
}

pub open spec fn header_view(header: Option<&str>) -> Option<Seq<char>> {
    match header {
        Some(h) => Some(h@),
        None => None,
    }
}

/// Splits a header value at its spaces: the text after the single space, or `None`
/// when the value does not hold exactly one space.
pub fn split_bearer(h: &str) -> (r: Option<String>)
    ensures
        match bearer_token(h@) {
            Some(t) => r matches Some(s) && s@ == t,
            None => r is None,
        },
{
    let chars = chars_of(h);
    let n = chars.len();
    let mut count: usize = 0;
    let mut pos: usize = 0;
    let mut i: usize = 0;
    while i < n
        invariant
            n == chars@.len(),
            chars@ == h@,
            i <= n,
            count as nat == count_char(chars@.subrange(0, i as int), ' '),
            count <= i,
            count > 0 ==> pos as int == first_index(chars@.subrange(0, i as int), ' ') && pos < i,
            count == 0 ==> first_index(chars@.subrange(0, i as int), ' ') == -1,
        decreases n - i,
    {
        assert(chars@.subrange(0, (i + 1) as int).drop_last() =~= chars@.subrange(0, i as int));
        if chars[i] == ' ' {
            if count == 0 {
                pos = i;
            }
            count = count + 1;
        }
        i = i + 1;
    }
    assert(chars@.subrange(0, n as int) =~= h@);
    if count != 1 {
        return None;
    }
    let token = suffix_from(&chars, pos + 1);
    Some(token)
}

/// Resolves the caller identity from the value of the `Authorization` header, if
/// any, at time `now`: the header must be a scheme and a non-empty token, the token
/// must verify under the signing configuration, and its subject must be a UUID.
pub fn resolve_at(manager: &Manager, header: Option<&str>, now: u64) -> (r: Result<u128, AuthError>)
    ensures
        r == resolution(manager.key(), header_view(header), now),
{
    let h = match header {
        Some(h) => h,
        None => return Err(AuthError::AuthorizationMissing),
    };
    let token = match split_bearer(h) {
        Some(t) => t,
        None => return Err(AuthError::AuthorizationMalformed),
    };
    if token.as_str().is_empty() {
        return Err(AuthError::AuthorizationMalformed);
    }
    match manager.parse_and_verify_at(token.as_str(), now) {
        Ok(claims) => match parse_uuid(claims.sub.as_str()) {
            Some(id) => Ok(id),
            None => Err(AuthError::AuthorizationInvalid),
        },
        Err(TokenError::Expired) => Err(AuthError::TokenExpired),
        Err(_) => Err(AuthError::AuthorizationInvalid),
    }
}

/// Resolves the caller identity from the `Authorization` header value against the
/// current time.
pub fn get_current_user_uuid_from_jwt(manager: &Manager, header: Option<&str>) -> (r: Result<u128, AuthError>)
    ensures
        exists|now: u64| now <= i64::MAX && r == #[trigger] resolution(manager.key(), header_view(header), now),
{
    let now = unix_now();
    resolve_at(manager, header, now)
}

/// The header value made of `scheme`, one space and `token`.
pub open spec fn bearer_header(scheme: Seq<char>, token: Seq<char>) -> Seq<char> {
    scheme + seq![' '] + token
}

/// A token in compact form holds no space and is not empty.
pub proof fn lemma_compact_token_unspaced(token: Seq<char>)
    requires
        compact_form(token),
    ensures
        count_char(token, ' ') == 0,
        token.len() > 0,
{
    assert forall|i: int| 0 <= i < token.len() implies token[i] != ' ' by {
        assert(crate::token::base64url_char(token[i]) || token[i] == '.');
    }
    lemma_count_absent(token, ' ');
}

/// A scheme without spaces, a space and a token without spaces split back into
/// that token.
pub proof fn lemma_bearer_token_of(scheme: Seq<char>, token: Seq<char>)
    requires
        count_char(scheme, ' ') == 0,
        count_char(token, ' ') == 0,
    ensures
        bearer_token(bearer_header(scheme, token)) == Some(token),
{
    let head = scheme + seq![' '];
    let h = bearer_header(scheme, token);
    assert(head.drop_last() =~= scheme);
    assert(seq![' '].drop_last() =~= Seq::<char>::empty());
    lemma_count_concat(scheme, seq![' '], ' ');
    lemma_count_concat(head, token, ' ');
    lemma_first_index_none(scheme, ' ');
    assert(first_index(head, ' ') == scheme.len());
    assert(h.subrange(0, head.len() as int) =~= head);
    lemma_first_index_prefix(h, ' ', head.len() as int);
    assert(h.subrange(head.len() as int, h.len() as int) =~= token);
}

/// A token issued for a UUID subject, sent after a scheme without spaces, resolves
/// to that identifier at every instant before its expiry.
pub proof fn lemma_issued_token_resolves(
    key: Seq<u8>,
    token: Seq<char>,
    sub: Seq<char>,
    exp: u64,
    id: u128,
    scheme: Seq<char>,
    now: u64,
)
    requires
        issued(key, token, sub, exp),
        uuid_parse(sub) == Some(id),
        count_char(scheme, ' ') == 0,
        now < exp,
    ensures
        resolution(key, Some(bearer_header(scheme, token)), now) == Ok::<u128, AuthError>(id),
{
    lemma_compact_token_unspaced(token);
    lemma_bearer_token_of(scheme, token);
}

/// An issued token sent at or after its expiry is reported as expired: neither
/// accepted nor reported as malformed or invalid.
pub proof fn lemma_expired_token_resolution(
    key: Seq<u8>,
    token: Seq<char>,
    sub: Seq<char>,
    exp: u64,
    scheme: Seq<char>,
    now: u64,
)
    requires
        issued(key, token, sub, exp),
        count_char(scheme, ' ') == 0,
        exp <= now,
    ensures
        resolution(key, Some(bearer_header(scheme, token)), now) == Err::<u128, AuthError>(AuthError::TokenExpired),
{
    lemma_compact_token_unspaced(token);
    lemma_bearer_token_of(scheme, token);
}

/// A token in compact form whose signature the decoding refuses is invalid at every
/// instant, whatever its expiry: the signature is checked first.
pub proof fn lemma_bad_signature_resolution(key: Seq<u8>, token: Seq<char>, scheme: Seq<char>, now: u64)
    requires
        compact_form(token),
        crate::token::hs256_claims(key, token) == refused(TokenError::InvalidSignature),
        count_char(scheme, ' ') == 0,
    ensures
        resolution(key, Some(bearer_header(scheme, token)), now) == Err::<u128, AuthError>(
            AuthError::AuthorizationInvalid,
        ),
{
    lemma_compact_token_unspaced(token);
    lemma_bearer_token_of(scheme, token);
}

} // verus!

use vstd::prelude::*;

verus! {

/// Why a token could not be accepted by the codec.
#[derive(Debug, Clone, Copy, PartialEq, Eq, Structural)]
pub enum TokenError {
    /// The signature does not verify under the configured key.
    InvalidSignature,
    /// The token cannot be split, decoded or read as claims.
    Malformed,
    /// The embedded expiry is not in the future at verification time.
    Expired,
}

/// The outcomes that the authentication core reports to its callers.
#[derive(Debug, Clone, Copy, PartialEq, Eq, Structural)]
pub enum AuthError {
    /// The signing configuration is unusable (missing or empty key, bad lifetime).
    ConfigInvalid,
    /// No live user record stands behind the given name or identifier.
    UserNotFound,
    /// The password does not match the stored hash.
    CredentialsInvalid,
    /// The stored password hash cannot be read.
    StoredHashInvalid,
    /// A token of the pair could not be produced.
    TokenIssuanceFailed,
    /// The request carries no `Authorization` header.
    AuthorizationMissing,
    /// The `Authorization` header is not a scheme and a non-empty token.
    AuthorizationMalformed,
    /// The bearer token or its subject is not acceptable.
    AuthorizationInvalid,
    /// The bearer token has expired; the caller should log in again.
    TokenExpired,
}

/// The human-readable description of each error.
pub open spec fn message_of(e: AuthError) -> Seq<char> {
    match e {
        AuthError::ConfigInvalid => "signing configuration is invalid"@,
        AuthError::UserNotFound => "user not found"@,
        AuthError::CredentialsInvalid => "username or password is wrong"@,
        AuthError::StoredHashInvalid => "stored password hash is invalid"@,
        AuthError::TokenIssuanceFailed => "failed to create token"@,
        AuthError::AuthorizationMissing => "authorization is missing"@,
        AuthError::AuthorizationMalformed => "authorization header invalid value!"@,
        AuthError::AuthorizationInvalid => "authorization is invalid"@,
        AuthError::TokenExpired => "your token has been expired, please login"@,
    }
}

impl AuthError {
    /// A short human-readable description of the error.
    pub fn message(&self) -> (r: String)
        ensures
            r@ == message_of(*self),
    {
        match self {
            AuthError::ConfigInvalid => "signing configuration is invalid".to_owned(),
            AuthError::UserNotFound => "user not found".to_owned(),
            AuthError::CredentialsInvalid => "username or password is wrong".to_owned(),
            AuthError::StoredHashInvalid => "stored password hash is invalid".to_owned(),
            AuthError::TokenIssuanceFailed => "failed to create token".to_owned(),
            AuthError::AuthorizationMissing => "authorization is missing".to_owned(),
            AuthError::AuthorizationMalformed => "authorization header invalid value!".to_owned(),
            AuthError::AuthorizationInvalid => "authorization is invalid".to_owned(),
            AuthError::TokenExpired => "your token has been expired, please login".to_owned(),
        }
    }
}

} // verus!

use vstd::prelude::*;
use vstd::utf8::encode_utf8;

use crate::validation::{collect, entries, failure, outcome_is, rule, FieldError, ValidationError};

verus! {

/// Credentials presented to log in.
#[derive(Debug, Clone)]
pub struct LoginRequest {
    pub username: String,
    pub password: String,
}

/// A login username must not be empty.
pub open spec fn username_rule(s: Seq<char>) -> Option<Seq<char>> {
    if encode_utf8(s).len() < 1 {
        Some("username is empty"@)
    } else {
        None
    }
}

/// A login password must not be empty.
pub open spec fn password_rule(s: Seq<char>) -> Option<Seq<char>> {
    if encode_utf8(s).len() < 1 {
        Some("password is empty"@)
    } else {
        None
    }
}

pub fn validate_username(username: &str) -> (r: Result<(), ValidationError>)
    ensures
        outcome_is(r, username_rule(username@)),
{
    rule(username.as_bytes().len() < 1, "username is empty")
}

pub fn validate_password(password: &str) -> (r: Result<(), ValidationError>)
    ensures
        outcome_is(r, password_rule(password@)),
{
    rule(password.as_bytes().len() < 1, "password is empty")
}

impl LoginRequest {
    /// The failed rules of the request, field by field.
    pub open spec fn failures(&self) -> Seq<(Seq<char>, Seq<char>)> {
        failure("LoginRequest.username"@, username_rule(self.username@)) + failure(
            "LoginRequest.password"@,
            password_rule(self.password@),
        )
    }

    pub fn validate(&self) -> (r: Vec<FieldError>)
        ensures
            entries(r@) == self.failures(),
    {
        let mut errors: Vec<FieldError> = Vec::new();
        collect(&mut errors, "LoginRequest.username", validate_username(self.username.as_str()));
        collect(&mut errors, "LoginRequest.password", validate_password(self.password.as_str()));
        assert(entries(errors@) =~= self.failures());
        errors
    }
}

} // verus!

use vstd::prelude::*;
use vstd::utf8::encode_utf8;

use crate::text::chars_of;
use crate::validation::{collect, entries, failure, outcome_is, rule, FieldError, ValidationError};

verus! {

/// A registration request.
#[derive(Debug, Clone)]
pub struct CreateUserRequest {
    pub username: String,
    pub password: String,
    pub fullname: Option<String>,
    pub email: Option<String>,
    pub phone_number: Option<String>,
}

/// A partial update of a user; absent fields stay as they are.
#[derive(Debug, Clone)]
pub struct UpdateUserRequest {
    pub username: Option<String>,
    pub password: Option<String>,
    pub fullname: Option<String>,
    pub email: Option<String>,
    pub phone_number: Option<String>,
}

/// The values stored for a new user; `password` holds the hash.
#[derive(Debug, Clone)]
pub struct UserSaveModel {
    pub username: String,
    pub password: String,
    pub fullname: Option<String>,
    pub email: Option<String>,
    pub phone_number: Option<String>,
}

/// The values written by an update of a user.
#[derive(Debug, Clone)]
pub struct UserUpdateModel {
    pub username: Option<String>,
    pub password: Option<String>,
    pub fullname: Option<String>,
    pub email: Option<String>,
    pub phone_number: Option<String>,
}

/// Whether the regex crate's `Regex` compiled from `pattern` matches somewhere in
/// `text`, or `None` when `pattern` does not compile.
pub uninterp spec fn regex_match(pattern: Seq<char>, text: Seq<char>) -> Option<bool>;

/// Relies on regex::Regex::new and Regex::is_match: compiling the pattern and
/// searching the text depend on the two strings alone.
#[verifier::external_body]
fn regex_is_match(pattern: &str, text: &str) -> (r: Option<bool>)
    ensures
        r == regex_match(pattern@, text@),
{
    regex::Regex::new(pattern).ok().map(|re| re.is_match(text))
}

pub open spec fn email_pattern() -> Seq<char> {
    "^[a-zA-Z0-9._%+-]+@[a-zA-Z0-9.-]+\\.[a-zA-Z]{2,}$"@
}

/// A username has at least four bytes.
pub open spec fn username_rule(s: Seq<char>) -> Option<Seq<char>> {
    if encode_utf8(s).len() < 4 {
        Some("username must have a minimum length of 3 characters"@)
    } else {
        None
    }
}

/// A password has at least six bytes.
pub open spec fn password_rule(s: Seq<char>) -> Option<Seq<char>> {
    if encode_utf8(s).len() < 6 {
        Some("password must have a minimum length of 6 characters"@)
    } else {
        None
    }
}

/// A full name has at least three bytes.
pub open spec fn fullname_rule(s: Seq<char>) -> Option<Seq<char>> {
    if encode_utf8(s).len() < 3 {
        Some("fullname must have a minimum length of 3 characters"@)
    } else {
        None
    }
}

/// A phone number starts with `0`.
pub open spec fn phone_number_rule(s: Seq<char>) -> Option<Seq<char>> {
    if s.len() > 0 && s[0] == '0' {
        None
    } else {
        Some("Phone number must start with '0'"@)
    }
}

/// An e-mail address matches the address pattern.
pub open spec fn email_rule(s: Seq<char>) -> Option<Seq<char>> {
    if regex_match(email_pattern(), s) == Some(true) {
        None
    } else {
        Some("email must be valid email like 'mail@mail.com'"@)
    }
}

/// The rule applied to an optional field: an absent value passes.
pub open spec fn optional(rule_code: spec_fn(Seq<char>) -> Option<Seq<char>>, v: Option<String>) -> Option<Seq<char>> {
    match v {
        Some(s) => rule_code(s@),
        None => None,
    }
}

pub fn validate_username(username: &str) -> (r: Result<(), ValidationError>)
    ensures
        outcome_is(r, username_rule(username@)),
{
    rule(username.as_bytes().len() < 4, "username must have a minimum length of 3 characters")
}

pub fn validate_password(password: &str) -> (r: Result<(), ValidationError>)
    ensures
        outcome_is(r, password_rule(password@)),
{
    rule(password.as_bytes().len() < 6, "password must have a minimum length of 6 characters")
}

pub fn validate_fullname(fullname: &str) -> (r: Result<(), ValidationError>)
    ensures
        outcome_is(r, fullname_rule(fullname@)),
{
    rule(fullname.as_bytes().len() < 3, "fullname must have a minimum length of 3 characters")
}

pub fn validate_phone_number(phone_number: &str) -> (r: Result<(), ValidationError>)
    ensures
        outcome_is(r, phone_number_rule(phone_number@)),
{
    let chars = chars_of(phone_number);
    let starts_with_zero = chars.len() > 0 && chars[0] == '0';
    rule(!starts_with_zero, "Phone number must start with '0'")
}

pub fn validate_email(email: &str) -> (r: Result<(), ValidationError>)
    ensures
        outcome_is(r, email_rule(email@)),
{
    let matched = regex_is_match("^[a-zA-Z0-9._%+-]+@[a-zA-Z0-9.-]+\\.[a-zA-Z]{2,}$", email);
    let ok = match matched {
        Some(b) => b,
        None => false,
    };
    rule(!ok, "email must be valid email like 'mail@mail.com'")
}

impl CreateUserRequest {
    /// The failed rules of the request, field by field.
    pub open spec fn failures(&self) -> Seq<(Seq<char>, Seq<char>)> {
        failure("CreateUserRequest.username"@, username_rule(self.username@))
            + failure("CreateUserRequest.password"@, password_rule(self.password@))
            + failure("CreateUserRequest.fullname"@, optional(|s: Seq<char>| fullname_rule(s), self.fullname))
            + failure("CreateUserRequest.email"@, optional(|s: Seq<char>| email_rule(s), self.email))
            + failure("CreateUserRequest.phone_number"@, optional(|s: Seq<char>| phone_number_rule(s), self.phone_number))
    }

    pub fn validate(&self) -> (r: Vec<FieldError>)
        ensures
            entries(r@) == self.failures(),
    {
        let mut errors: Vec<FieldError> = Vec::new();
        collect(&mut errors, "CreateUserRequest.username", validate_username(self.username.as_str()));
        collect(&mut errors, "CreateUserRequest.password", validate_password(self.password.as_str()));
        let fullname = match &self.fullname {
            Some(v) => validate_fullname(v.as_str()),
            None => Ok(()),
        };
        collect(&mut errors, "CreateUserRequest.fullname", fullname);
        let email = match &self.email {
            Some(v) => validate_email(v.as_str()),
            None => Ok(()),
        };
        collect(&mut errors, "CreateUserRequest.email", email);
        let phone_number = match &self.phone_number {
            Some(v) => validate_phone_number(v.as_str()),
            None => Ok(()),
        };
        collect(&mut errors, "CreateUserRequest.phone_number", phone_number);
        assert(entries(errors@) =~= self.failures());
        errors
    }
}

impl UpdateUserRequest {
    /// The failed rules of the request, field by field; absent fields pass.
    pub open spec fn failures(&self) -> Seq<(Seq<char>, Seq<char>)> {
        failure("UpdateUserRequest.username"@, optional(|s: Seq<char>| username_rule(s), self.username))
            + failure("UpdateUserRequest.password"@, optional(|s: Seq<char>| password_rule(s), self.password))
            + failure("UpdateUserRequest.fullname"@, optional(|s: Seq<char>| fullname_rule(s), self.fullname))
            + failure("UpdateUserRequest.email"@, optional(|s: Seq<char>| email_rule(s), self.email))
            + failure("UpdateUserRequest.phone_number"@, optional(|s: Seq<char>| phone_number_rule(s), self.phone_number))
    }

    pub fn validate(&self) -> (r: Vec<FieldError>)
        ensures
            entries(r@) == self.failures(),
    {
        let mut errors: Vec<FieldError> = Vec::new();
        let username = match &self.username {
            Some(v) => validate_username(v.as_str()),
            None => Ok(()),
        };
        collect(&mut errors, "UpdateUserRequest.username", username);
        let password = match &self.password {
            Some(v) => validate_password(v.as_str()),
            None => Ok(()),
        };
        collect(&mut errors, "UpdateUserRequest.password", password);
        let fullname = match &self.fullname {
            Some(v) => validate_fullname(v.as_str()),
            None => Ok(()),
        };
        collect(&mut errors, "UpdateUserRequest.fullname", fullname);
        let email = match &self.email {
            Some(v) => validate_email(v.as_str()),
            None => Ok(()),
        };
        collect(&mut errors, "UpdateUserRequest.email", email);
        let phone_number = match &self.phone_number {
            Some(v) => validate_phone_number(v.as_str()),
            None => Ok(()),
        };
        collect(&mut errors, "UpdateUserRequest.phone_number", phone_number);
        assert(entries(errors@) =~= self.failures());
        errors
    }
}

} // verus!

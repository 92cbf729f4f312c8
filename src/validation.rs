use vstd::prelude::*;

use crate::text::{chars_of, first_index, find_char, suffix_from};

verus! {

/// A failed rule on one field value; `code` says which rule failed.
#[derive(Debug, Clone)]
pub struct ValidationError {
    pub code: String,
}

/// A failed rule on a field of a request, named as `Type.field`.
#[derive(Debug, Clone)]
pub struct FieldError {
    pub field: String,
    pub code: String,
}

/// One entry of the error list that is sent back for an invalid request.
#[derive(Debug, Clone)]
pub struct ErrorResponse {
    pub failed_field: String,
    pub tag: String,
    pub value: String,
}

/// The field name and the rule code of a field error.
pub open spec fn entry(e: FieldError) -> (Seq<char>, Seq<char>) {
    (e.field@, e.code@)
}

pub open spec fn entries(v: Seq<FieldError>) -> Seq<(Seq<char>, Seq<char>)> {
    v.map_values(|e: FieldError| entry(e))
}

/// The entries a field contributes: one when its rule reported `code`, none otherwise.
pub open spec fn failure(field: Seq<char>, code: Option<Seq<char>>) -> Seq<(Seq<char>, Seq<char>)> {
    match code {
        Some(c) => seq![(field, c)],
        None => seq![],
    }
}

/// The code of a rule outcome, if it failed.
pub open spec fn code_of(r: Result<(), ValidationError>) -> Option<Seq<char>> {
    match r {
        Ok(()) => None,
        Err(e) => Some(e.code@),
    }
}

/// A rule outcome with the given code, if any.
pub open spec fn outcome_is(r: Result<(), ValidationError>, code: Option<Seq<char>>) -> bool {
    code_of(r) == code
}

/// The rule outcome that fails with `code` exactly when `failed` holds.
pub fn rule(failed: bool, code: &str) -> (r: Result<(), ValidationError>)
    ensures
        outcome_is(r, if failed { Some(code@) } else { None }),
{
    if failed {
        Err(ValidationError { code: code.to_owned() })
    } else {
        Ok(())
    }
}

/// Records the outcome of the rule on `field`.
pub fn collect(errors: &mut Vec<FieldError>, field: &str, outcome: Result<(), ValidationError>)
    ensures
        entries(final(errors)@) == entries(old(errors)@) + failure(field@, code_of(outcome)),
{
    match outcome {
        Ok(()) => {
            assert(entries(errors@) =~= entries(old(errors)@) + failure(field@, code_of(outcome)));
        },
        Err(e) => {
            errors.push(FieldError { field: field.to_owned(), code: e.code });
            assert(entries(errors@) =~= entries(old(errors)@) + failure(field@, code_of(outcome)));
        },
    }
}

/// The lower-case form that str::to_lowercase gives of `s`.
pub uninterp spec fn lower_of(s: Seq<char>) -> Seq<char>;

/// Relies on str::to_lowercase: the result depends on the characters alone, and an
/// empty text stays empty.
#[verifier::external_body]
fn lowercase(s: &str) -> (r: String)
    ensures
        r@ == lower_of(s@),
        s@.len() == 0 ==> r@.len() == 0,
{
    s.to_lowercase()
}

/// The field name that a namespaced name reports: the lower-cased text after its
/// first dot, or the whole name when it has no dot.
pub open spec fn trimmed(s: Seq<char>) -> Seq<char> {
    if first_index(s, '.') >= 0 {
        lower_of(s.subrange(first_index(s, '.') + 1, s.len() as int))
    } else {
        s
    }
}

pub fn trim_string_from_dot(string: &str) -> (r: String)
    ensures
        r@ == trimmed(string@),
{
    let chars = chars_of(string);
    match find_char(&chars, '.') {
        Some(pos) => {
            let rest = suffix_from(&chars, pos + 1);
            lowercase(rest.as_str())
        },
        None => string.to_owned(),
    }
}

/// The response entry for one field error.
pub open spec fn response_for(e: FieldError, r: ErrorResponse) -> bool {
    &&& r.failed_field@ == trimmed(e.field@)
    &&& r.tag@ == e.code@
    &&& r.value@ == Seq::<char>::empty()
}

/// Turns the field errors of a request into response entries, one per error and in
/// the same order.
pub fn validate_struct(errors: &Vec<FieldError>) -> (r: Vec<ErrorResponse>)
    ensures
        r@.len() == errors@.len(),
        forall|i: int| 0 <= i < r@.len() ==> response_for(errors@[i], #[trigger] r@[i]),
{
    let mut out: Vec<ErrorResponse> = Vec::new();
    let mut i: usize = 0;
    while i < errors.len()
        invariant
            i <= errors@.len(),
            out@.len() == i,
            forall|j: int| 0 <= j < i ==> response_for(errors@[j], #[trigger] out@[j]),
        decreases errors@.len() - i,
    {
        let e = &errors[i];
        let item = ErrorResponse {
            failed_field: trim_string_from_dot(e.field.as_str()),
            tag: e.code.clone(),
            value: String::new(),
        };
        out.push(item);
        i = i + 1;
    }
    out
}

} // verus!

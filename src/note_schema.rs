use vstd::prelude::*;
use vstd::string::StringExecFns;
use vstd::utf8::encode_utf8;

use crate::validation::{collect, entries, failure, outcome_is, rule, FieldError, ValidationError};

verus! {

/// Number of notes on a page when the query names no limit.
pub const DEFAULT_PAGE_LIMIT: usize = 10;

/// Query options of a note listing.
#[derive(Debug, Clone)]
pub struct FilterOptions {
    pub page: Option<usize>,
    pub limit: Option<usize>,
    pub title: Option<String>,
    pub content: Option<String>,
    pub sort_by: Option<String>,
    pub sort_order: Option<String>,
}

/// Path parameters that name one note.
#[derive(Debug, Clone)]
pub struct ParamOptions {
    pub id: String,
}

/// A request to create a note.
#[derive(Debug, Clone)]
pub struct CreateNoteSchema {
    pub title: String,
    pub content: String,
    pub category: Option<String>,
    pub published: Option<bool>,
}

/// A partial update of a note; absent fields stay as they are.
#[derive(Debug, Clone)]
pub struct UpdateNoteSchema {
    pub title: Option<String>,
    pub content: Option<String>,
    pub category: Option<String>,
    pub published: Option<bool>,
}

/// A non-empty value, with the code given.
pub open spec fn non_empty_rule(s: Seq<char>, code: Seq<char>) -> Option<Seq<char>> {
    if encode_utf8(s).len() < 1 {
        Some(code)
    } else {
        None
    }
}

pub open spec fn title_code() -> Seq<char> {
    "title must have a minimum length of 1 characters"@
}

pub open spec fn content_code() -> Seq<char> {
    "content must have minimum length of 1 characters"@
}

pub open spec fn category_code() -> Seq<char> {
    "category must have a minimum length of 1 characters"@
}

/// The length rule of an optional field: a present value holds at least one
/// character.
pub open spec fn length_rule(v: Option<String>) -> Option<Seq<char>> {
    match v {
        Some(s) => if s@.len() < 1 {
            Some("length"@)
        } else {
            None
        },
        None => None,
    }
}

pub open spec fn category_rule(v: Option<String>) -> Option<Seq<char>> {
    match v {
        Some(s) => non_empty_rule(s@, category_code()),
        None => None,
    }
}

pub fn validate_title(title: &str) -> (r: Result<(), ValidationError>)
    ensures
        outcome_is(r, non_empty_rule(title@, title_code())),
{
    rule(title.as_bytes().len() < 1, "title must have a minimum length of 1 characters")
}

pub fn validate_content(content: &str) -> (r: Result<(), ValidationError>)
    ensures
        outcome_is(r, non_empty_rule(content@, content_code())),
{
    rule(content.as_bytes().len() < 1, "content must have minimum length of 1 characters")
}

pub fn validate_category(category: &str) -> (r: Result<(), ValidationError>)
    ensures
        outcome_is(r, non_empty_rule(category@, category_code())),
{
    rule(category.as_bytes().len() < 1, "category must have a minimum length of 1 characters")
}

/// Checks that a present value holds at least one character.
pub fn validate_length(v: &Option<String>) -> (r: Result<(), ValidationError>)
    ensures
        outcome_is(r, length_rule(*v)),
{
    match v {
        Some(s) => rule(s.as_str().is_empty(), "length"),
        None => Ok(()),
    }
}

fn category_outcome(v: &Option<String>) -> (r: Result<(), ValidationError>)
    ensures
        outcome_is(r, category_rule(*v)),
{
    match v {
        Some(s) => validate_category(s.as_str()),
        None => Ok(()),
    }
}

impl CreateNoteSchema {
    /// The failed rules of the request, field by field.
    pub open spec fn failures(&self) -> Seq<(Seq<char>, Seq<char>)> {
        failure("CreateNoteSchema.title"@, non_empty_rule(self.title@, title_code()))
            + failure("CreateNoteSchema.content"@, non_empty_rule(self.content@, content_code()))
            + failure("CreateNoteSchema.category"@, category_rule(self.category))
    }

    pub fn validate(&self) -> (r: Vec<FieldError>)
        ensures
            entries(r@) == self.failures(),
    {
        let mut errors: Vec<FieldError> = Vec::new();
        collect(&mut errors, "CreateNoteSchema.title", validate_title(self.title.as_str()));
        collect(&mut errors, "CreateNoteSchema.content", validate_content(self.content.as_str()));
        collect(&mut errors, "CreateNoteSchema.category", category_outcome(&self.category));
        assert(entries(errors@) =~= self.failures());
        errors
    }
}

impl UpdateNoteSchema {
    /// The failed rules of the request, field by field; absent fields pass.
    pub open spec fn failures(&self) -> Seq<(Seq<char>, Seq<char>)> {
        failure("UpdateNoteSchema.title"@, length_rule(self.title))
            + failure("UpdateNoteSchema.content"@, length_rule(self.content))
            + failure("UpdateNoteSchema.category"@, category_rule(self.category))
    }

    pub fn validate(&self) -> (r: Vec<FieldError>)
        ensures
            entries(r@) == self.failures(),
    {
        let mut errors: Vec<FieldError> = Vec::new();
        collect(&mut errors, "UpdateNoteSchema.title", validate_length(&self.title));
        collect(&mut errors, "UpdateNoteSchema.content", validate_length(&self.content));
        collect(&mut errors, "UpdateNoteSchema.category", category_outcome(&self.category));
        assert(entries(errors@) =~= self.failures());
        errors
    }
}

/// The upper-case form that str::to_uppercase gives of `s`.
pub uninterp spec fn upper_of(s: Seq<char>) -> Seq<char>;

/// Relies on str::to_uppercase: the result depends on the characters alone.
#[verifier::external_body]
fn uppercase(s: &str) -> (r: String)
    ensures
        r@ == upper_of(s@),
{
    s.to_uppercase()
}

/// The search condition on `column` for an optional term: none for an absent or
/// empty term.
pub open spec fn condition(column: Seq<char>, term: Option<String>) -> Seq<char> {
    match term {
        Some(t) => if t@.len() > 0 {
            "AND "@ + column + " ILIKE '%"@ + t@ + "%'"@
        } else {
            Seq::empty()
        },
        None => Seq::empty(),
    }
}

/// The ordering clause of a listing: by the requested column, with the requested
/// direction when it reads `ASC` or `DESC` in any case; newest first when either is
/// absent; none when either is empty.
pub open spec fn ordering(sort_by: Option<String>, sort_order: Option<String>) -> Seq<char> {
    if sort_by is Some && sort_order is Some {
        let by = sort_by->0@;
        let order = sort_order->0@;
        if by.len() > 0 && order.len() > 0 {
            if upper_of(order) == "ASC"@ || upper_of(order) == "DESC"@ {
                " ORDER BY "@ + by + " "@ + order
            } else {
                " ORDER BY "@ + by
            }
        } else {
            Seq::empty()
        }
    } else {
        " ORDER BY created_at DESC"@
    }
}

fn push_condition(query: &mut String, column: &str, term: &Option<String>)
    ensures
        final(query)@ == old(query)@ + condition(column@, *term),
{
    if let Some(t) = term {
        if !t.as_str().is_empty() {
            query.append("AND ");
            query.append(column);
            query.append(" ILIKE '%");
            query.append(t.as_str());
            query.append("%'");
            assert(query@ =~= old(query)@ + condition(column@, *term));
            return;
        }
    }
    assert(query@ =~= old(query)@ + condition(column@, *term));
}

impl FilterOptions {
    /// The search conditions of the listing, title first.
    pub fn query_conditions(&self) -> (r: String)
        ensures
            r@ == condition("title"@, self.title) + condition("content"@, self.content),
    {
        let mut query = String::new();
        push_condition(&mut query, "title", &self.title);
        push_condition(&mut query, "content", &self.content);
        assert(query@ =~= condition("title"@, self.title) + condition("content"@, self.content));
        query
    }

    /// The ordering clause of the listing.
    pub fn order_clause(&self) -> (r: String)
        ensures
            r@ == ordering(self.sort_by, self.sort_order),
    {
        let mut clause = String::new();
        match (&self.sort_by, &self.sort_order) {
            (Some(by), Some(order)) => {
                if !by.as_str().is_empty() && !order.as_str().is_empty() {
                    clause.append(" ORDER BY ");
                    clause.append(by.as_str());
                    let upper = uppercase(order.as_str());
                    if upper == "ASC".to_owned() || upper == "DESC".to_owned() {
                        clause.append(" ");
                        clause.append(order.as_str());
                    }
                }
            },
            _ => {
                clause.append(" ORDER BY created_at DESC");
            },
        }
        assert(clause@ =~= ordering(self.sort_by, self.sort_order));
        clause
    }

    /// The page size and the number of notes to skip: the limit defaults to ten and
    /// the page, counted from one, to the first. `None` when the page is zero or the
    /// offset does not fit in a `usize`.
    pub fn limit_and_offset(&self) -> (r: Option<(usize, usize)>)
        ensures
            ({
                let limit = match self.limit {
                    Some(l) => l as int,
                    None => DEFAULT_PAGE_LIMIT as int,
                };
                let page = match self.page {
                    Some(p) => p as int,
                    None => 1int,
                };
                if page == 0 || (page - 1) * limit > usize::MAX {
                    r is None
                } else {
                    r == Some((limit as usize, ((page - 1) * limit) as usize))
                }
            }),
    {
        let limit: usize = match self.limit {
            Some(l) => l,
            None => DEFAULT_PAGE_LIMIT,
        };
        let page: usize = match self.page {
            Some(p) => p,
            None => 1,
        };
        if page == 0 {
            return None;
        }
        match (page - 1).checked_mul(limit) {
            Some(offset) => Some((limit, offset)),
            None => None,
        }
    }
}

} // verus!

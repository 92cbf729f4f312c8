use notes_api::auth_schema::LoginRequest;
use notes_api::note_schema::{validate_category, validate_content, validate_title, CreateNoteSchema, FilterOptions, UpdateNoteSchema};
use notes_api::user_schema::{
    validate_email, validate_fullname, validate_password, validate_phone_number, validate_username, CreateUserRequest,
    UpdateUserRequest,
};
use notes_api::validation::{trim_string_from_dot, validate_struct, FieldError};

fn pairs(v: &[FieldError]) -> Vec<(String, String)> {
    v.iter().map(|e| (e.field.clone(), e.code.clone())).collect()
}

#[test]
fn trim_keeps_text_after_first_dot_lowercased() {
    assert_eq!(trim_string_from_dot("LoginRequest.UserName"), "username");
    assert_eq!(trim_string_from_dot("a.B.C"), "b.c");
    assert_eq!(trim_string_from_dot("NoDot"), "NoDot");
    assert_eq!(trim_string_from_dot("Trailing."), "");
}

#[test]
fn validate_struct_maps_each_error() {
    let errors = vec![
        FieldError { field: "LoginRequest.Username".to_string(), code: "username is empty".to_string() },
        FieldError { field: "plain".to_string(), code: "x".to_string() },
    ];
    let out = validate_struct(&errors);
    assert_eq!(out.len(), 2);
    assert_eq!(out[0].failed_field, "username");
    assert_eq!(out[0].tag, "username is empty");
    assert_eq!(out[0].value, "");
    assert_eq!(out[1].failed_field, "plain");
}

#[test]
fn login_request_rules() {
    let bad = LoginRequest { username: String::new(), password: String::new() };
    assert_eq!(
        pairs(&bad.validate()),
        vec![
            ("LoginRequest.username".to_string(), "username is empty".to_string()),
            ("LoginRequest.password".to_string(), "password is empty".to_string()),
        ]
    );
    let good = LoginRequest { username: "a".to_string(), password: "b".to_string() };
    assert!(good.validate().is_empty());
}

#[test]
fn user_field_rules() {
    assert!(validate_username("abc").is_err());
    assert!(validate_username("abcd").is_ok());
    assert!(validate_password("12345").is_err());
    assert!(validate_password("123456").is_ok());
    assert!(validate_fullname("ab").is_err());
    assert!(validate_fullname("abc").is_ok());
    assert!(validate_fullname("é").is_err());
    assert!(validate_fullname("éa").is_ok());
    assert!(validate_phone_number("0812").is_ok());
    assert!(validate_phone_number("812").is_err());
    assert!(validate_phone_number("").is_err());
    assert_eq!(validate_phone_number("1").unwrap_err().code, "Phone number must start with '0'");
}

#[test]
fn email_rule() {
    assert!(validate_email("mail@mail.com").is_ok());
    assert!(validate_email("first.last+tag@sub.example.org").is_ok());
    assert!(validate_email("mail@mail").is_err());
    assert!(validate_email("mail.com").is_err());
    assert!(validate_email("mail@mail.c").is_err());
    assert_eq!(validate_email("").unwrap_err().code, "email must be valid email like 'mail@mail.com'");
}

#[test]
fn create_user_request_rules() {
    let req = CreateUserRequest {
        username: "bob".to_string(),
        password: "secret1".to_string(),
        fullname: Some("Bo".to_string()),
        email: None,
        phone_number: Some("0800".to_string()),
    };
    assert_eq!(
        pairs(&req.validate()),
        vec![
            ("CreateUserRequest.username".to_string(), "username must have a minimum length of 3 characters".to_string()),
            ("CreateUserRequest.fullname".to_string(), "fullname must have a minimum length of 3 characters".to_string()),
        ]
    );
}

#[test]
fn update_user_request_skips_absent_fields() {
    let req = UpdateUserRequest { username: None, password: None, fullname: None, email: None, phone_number: None };
    assert!(req.validate().is_empty());
    let req = UpdateUserRequest {
        username: None,
        password: Some("short".to_string()),
        fullname: None,
        email: Some("nope".to_string()),
        phone_number: None,
    };
    assert_eq!(
        pairs(&req.validate()),
        vec![
            ("UpdateUserRequest.password".to_string(), "password must have a minimum length of 6 characters".to_string()),
            ("UpdateUserRequest.email".to_string(), "email must be valid email like 'mail@mail.com'".to_string()),
        ]
    );
}

#[test]
fn note_field_rules() {
    assert!(validate_title("").is_err());
    assert!(validate_title("t").is_ok());
    assert!(validate_content("").is_err());
    assert!(validate_category("").is_err());
    assert!(validate_category("c").is_ok());
}

#[test]
fn note_schema_rules() {
    let create = CreateNoteSchema { title: String::new(), content: "c".to_string(), category: Some(String::new()), published: None };
    assert_eq!(
        pairs(&create.validate()),
        vec![
            ("CreateNoteSchema.title".to_string(), "title must have a minimum length of 1 characters".to_string()),
            ("CreateNoteSchema.category".to_string(), "category must have a minimum length of 1 characters".to_string()),
        ]
    );
    let update = UpdateNoteSchema { title: Some(String::new()), content: None, category: None, published: Some(true) };
    assert_eq!(pairs(&update.validate()), vec![("UpdateNoteSchema.title".to_string(), "length".to_string())]);
}

fn filter(page: Option<usize>, limit: Option<usize>) -> FilterOptions {
    FilterOptions { page, limit, title: None, content: None, sort_by: None, sort_order: None }
}

#[test]
fn paging_defaults_and_offsets() {
    assert_eq!(filter(None, None).limit_and_offset(), Some((10, 0)));
    assert_eq!(filter(Some(3), Some(20)).limit_and_offset(), Some((20, 40)));
    assert_eq!(filter(Some(0), None).limit_and_offset(), None);
    assert_eq!(filter(Some(usize::MAX), Some(2)).limit_and_offset(), None);
}


fn search(title: Option<&str>, content: Option<&str>, sort_by: Option<&str>, sort_order: Option<&str>) -> FilterOptions {
    FilterOptions {
        page: None,
        limit: None,
        title: title.map(|s| s.to_string()),
        content: content.map(|s| s.to_string()),
        sort_by: sort_by.map(|s| s.to_string()),
        sort_order: sort_order.map(|s| s.to_string()),
    }
}

#[test]
fn listing_conditions() {
    assert_eq!(search(None, None, None, None).query_conditions(), "");
    assert_eq!(search(Some(""), Some(""), None, None).query_conditions(), "");
    assert_eq!(search(Some("rust"), None, None, None).query_conditions(), "AND title ILIKE '%rust%'");
    assert_eq!(
        search(Some("a"), Some("b"), None, None).query_conditions(),
        "AND title ILIKE '%a%'AND content ILIKE '%b%'"
    );
}

#[test]
fn listing_order() {
    assert_eq!(search(None, None, None, None).order_clause(), " ORDER BY created_at DESC");
    assert_eq!(search(None, None, Some("title"), None).order_clause(), " ORDER BY created_at DESC");
    assert_eq!(search(None, None, Some("title"), Some("asc")).order_clause(), " ORDER BY title asc");
    assert_eq!(search(None, None, Some("title"), Some("DESC")).order_clause(), " ORDER BY title DESC");
    assert_eq!(search(None, None, Some("title"), Some("sideways")).order_clause(), " ORDER BY title");
    assert_eq!(search(None, None, Some(""), Some("asc")).order_clause(), "");
}

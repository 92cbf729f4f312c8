use notes_api::config::Config;
use notes_api::credential::{hash, verify_password};
use notes_api::error::AuthError;
use notes_api::identity::{get_current_user_uuid_from_jwt, resolve_at, split_bearer};
use notes_api::session::{finish_login, issue_pair_at, login_at, login_service, refresh_at, refresh_token_service, UserRecord};
use notes_api::token::{Manager, REFRESH_LIFETIME_SECS};

fn manager_with(key: &str, magnitude: i32, unit: &str) -> Manager {
    let cfg = Config {
        enable_log: None,
        host: None,
        port: None,
        postgres_host: None,
        postgres_port: None,
        postgres_user: None,
        postgres_password: None,
        postgres_db: None,
        postgres_schema: None,
        postgres_max_connection: None,
        jwt_secret_key: Some(key.to_string()),
        access_token_expiry: Some(magnitude),
        access_token_expiry_unit: Some(unit.to_string()),
    };
    Manager::new(&cfg).unwrap()
}

fn manager() -> Manager {
    manager_with("s3cr3t", 2, "hours")
}

const ID: u128 = 0x1111_1111_1111_1111_1111_1111_1111_1111;
const ID_TEXT: &str = "11111111-1111-1111-1111-111111111111";

fn user(password_hash: &str, deleted: bool) -> UserRecord {
    UserRecord { id: ID, username: "alice".to_string(), password_hash: password_hash.to_string(), deleted }
}

fn bearer(token: &str) -> String {
    format!("Bearer {}", token)
}

#[test]
fn empty_bearer_token_is_malformed() {
    assert_eq!(resolve_at(&manager(), Some("Bearer "), 0), Err(AuthError::AuthorizationMalformed));
}

#[test]
fn missing_header_is_reported() {
    assert_eq!(resolve_at(&manager(), None, 0), Err(AuthError::AuthorizationMissing));
    assert_eq!(get_current_user_uuid_from_jwt(&manager(), None), Err(AuthError::AuthorizationMissing));
}

#[test]
fn header_must_have_exactly_two_parts() {
    let m = manager();
    let token = m.issue(ID_TEXT, 10_000);
    assert_eq!(resolve_at(&m, Some(&token), 0), Err(AuthError::AuthorizationMalformed));
    assert_eq!(resolve_at(&m, Some(""), 0), Err(AuthError::AuthorizationMalformed));
    assert_eq!(resolve_at(&m, Some(&format!("Bearer  {}", token)), 0), Err(AuthError::AuthorizationMalformed));
    assert_eq!(resolve_at(&m, Some(&format!("Bearer {} x", token)), 0), Err(AuthError::AuthorizationMalformed));
    assert_eq!(resolve_at(&m, Some(&bearer(&token)), 0), Ok(ID));
}

#[test]
fn split_bearer_takes_text_after_the_space() {
    assert_eq!(split_bearer("Bearer abc"), Some("abc".to_string()));
    assert_eq!(split_bearer("Token é.ü"), Some("é.ü".to_string()));
    assert_eq!(split_bearer("Bearer "), Some(String::new()));
    assert_eq!(split_bearer("Bearer"), None);
    assert_eq!(split_bearer("a b c"), None);
}

#[test]
fn valid_token_resolves_to_its_subject() {
    let m = manager();
    let token = m.issue(ID_TEXT, 10_000);
    assert_eq!(resolve_at(&m, Some(&bearer(&token)), 9_999), Ok(ID));
    let live = m.new_jwt(ID_TEXT).unwrap();
    assert_eq!(get_current_user_uuid_from_jwt(&m, Some(&bearer(&live))), Ok(ID));
}

#[test]
fn expired_token_asks_for_login() {
    let m = manager();
    let token = m.issue(ID_TEXT, 10_000);
    assert_eq!(resolve_at(&m, Some(&bearer(&token)), 10_000), Err(AuthError::TokenExpired));
    assert_eq!(
        AuthError::TokenExpired.message(),
        "your token has been expired, please login".to_string()
    );
}

#[test]
fn foreign_or_broken_token_is_invalid() {
    let m = manager();
    let other = manager_with("different", 2, "hours");
    let token = other.issue(ID_TEXT, 10_000);
    assert_eq!(resolve_at(&m, Some(&bearer(&token)), 0), Err(AuthError::AuthorizationInvalid));
    assert_eq!(resolve_at(&m, Some("Bearer garbage"), 0), Err(AuthError::AuthorizationInvalid));
}

#[test]
fn subject_that_is_not_a_uuid_is_invalid() {
    let m = manager();
    let token = m.issue("alice", 10_000);
    assert_eq!(resolve_at(&m, Some(&bearer(&token)), 0), Err(AuthError::AuthorizationInvalid));
    let empty = m.issue("", 10_000);
    assert_eq!(resolve_at(&m, Some(&bearer(&empty)), 0), Err(AuthError::AuthorizationInvalid));
}

#[test]
fn pair_tokens_differ_and_share_subject() {
    let m = manager();
    let pair = issue_pair_at(&m, ID_TEXT, 5_000).unwrap();
    assert_ne!(pair.access_token, pair.refresh_token);
    let a = m.parse_and_verify_at(&pair.access_token, 5_000).unwrap();
    let r = m.parse_and_verify_at(&pair.refresh_token, 5_000).unwrap();
    assert_eq!(a.sub, ID_TEXT);
    assert_eq!(r.sub, ID_TEXT);
    assert_eq!(a.exp, 5_000 + 7_200);
    assert_eq!(r.exp, 5_000 + REFRESH_LIFETIME_SECS);
}

#[test]
fn pair_fails_whole_when_an_expiry_overflows() {
    let m = manager();
    assert_eq!(issue_pair_at(&m, ID_TEXT, u64::MAX - 7_200).err(), Some(AuthError::TokenIssuanceFailed));
}

#[test]
fn password_hash_round_trip() {
    let h = hash("correct horse").unwrap();
    assert!(h.starts_with("$2b$08$"));
    assert_eq!(h.len(), 60);
    assert_ne!(h, hash("correct horse").unwrap());
    assert_eq!(verify_password("correct horse", &h), Ok(true));
    assert_eq!(verify_password("wrong horse", &h), Ok(false));
}

#[test]
fn unreadable_hash_is_an_error() {
    assert_eq!(verify_password("pw", "not-a-hash"), Err(AuthError::StoredHashInvalid));
}

#[test]
fn known_hash_verifies() {
    let known = "$2b$04$EGdrhbKUv8Oc9vGiXX0HQOxSg445d458Muh7DAHskb6QbtCvdxcie";
    assert_eq!(verify_password("correctbatteryhorsestapler", known), Ok(true));
}

#[test]
fn login_with_wrong_password_is_refused() {
    let m = manager();
    let found = Some(user(&hash("right-password").unwrap(), false));
    assert_eq!(login_at(&m, &found, "wrong-password", 1_000).err(), Some(AuthError::CredentialsInvalid));
}

#[test]
fn login_of_unknown_user_is_refused_before_any_check() {
    let m = manager();
    assert_eq!(login_at(&m, &None, "anything", 1_000).err(), Some(AuthError::UserNotFound));
    let deleted = Some(user("not-a-hash", true));
    assert_eq!(login_at(&m, &deleted, "anything", 1_000).err(), Some(AuthError::UserNotFound));
}

#[test]
fn login_with_unreadable_hash_fails() {
    let m = manager();
    let found = Some(user("not-a-hash", false));
    assert_eq!(login_at(&m, &found, "anything", 1_000).err(), Some(AuthError::StoredHashInvalid));
}

#[test]
fn login_issues_pair_for_user_id() {
    let m = manager();
    let found = Some(user(&hash("right-password").unwrap(), false));
    let pair = login_at(&m, &found, "right-password", 1_000).unwrap();
    assert_eq!(m.parse_and_verify_at(&pair.access_token, 1_000).unwrap().sub, ID_TEXT);
    assert_eq!(resolve_at(&m, Some(&bearer(&pair.access_token)), 1_000), Ok(ID));
    assert_eq!(resolve_at(&m, Some(&bearer(&pair.refresh_token)), 1_000 + 7_200), Ok(ID));
    let now_pair = login_service(&m, &found, "right-password").unwrap();
    assert_eq!(get_current_user_uuid_from_jwt(&m, Some(&bearer(&now_pair.access_token))), Ok(ID));
}

#[test]
fn refresh_twice_gives_distinct_valid_pairs() {
    let m = manager();
    let found = Some(user("unused", false));
    let first = refresh_at(&m, ID, &found, 1_000).unwrap();
    let second = refresh_at(&m, ID, &found, 1_001).unwrap();
    assert_ne!(first.access_token, second.access_token);
    assert_ne!(first.refresh_token, second.refresh_token);
    assert_eq!(resolve_at(&m, Some(&bearer(&first.access_token)), 1_001), Ok(ID));
    assert_eq!(resolve_at(&m, Some(&bearer(&second.access_token)), 1_001), Ok(ID));
    assert_eq!(m.parse_and_verify_at(&first.refresh_token, 1_001).unwrap().sub, ID_TEXT);
}

#[test]
fn refresh_of_missing_or_deactivated_user_fails() {
    let m = manager();
    assert_eq!(refresh_at(&m, ID, &None, 1_000).err(), Some(AuthError::UserNotFound));
    assert_eq!(refresh_at(&m, ID, &Some(user("x", true)), 1_000).err(), Some(AuthError::UserNotFound));
    assert_eq!(refresh_at(&m, ID + 1, &Some(user("x", false)), 1_000).err(), Some(AuthError::UserNotFound));
    assert!(refresh_token_service(&m, ID, &Some(user("x", false))).is_ok());
}

#[test]
fn finish_login_follows_the_password_check() {
    let m = manager();
    let u = user("irrelevant", false);
    assert_eq!(finish_login(&m, &u, Ok(false), 1_000).err(), Some(AuthError::CredentialsInvalid));
    assert_eq!(
        finish_login(&m, &u, Err(AuthError::StoredHashInvalid), 1_000).err(),
        Some(AuthError::StoredHashInvalid)
    );
    let pair = finish_login(&m, &u, Ok(true), 1_000).unwrap();
    assert_eq!(m.parse_and_verify_at(&pair.access_token, 1_000).unwrap().sub, ID_TEXT);
    assert_eq!(m.parse_and_verify_at(&pair.refresh_token, 1_000).unwrap().exp, 1_000 + REFRESH_LIFETIME_SECS);
}

#[test]
fn scenario_fresh_token_resolves_through_header() {
    let m = manager();
    let token = m.new_jwt(ID_TEXT).unwrap();
    assert_eq!(get_current_user_uuid_from_jwt(&m, Some(&bearer(&token))), Ok(ID));
}

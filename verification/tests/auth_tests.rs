//! Tests for the credential service and the user service over the account
//! store: registration, login, duplicate emails, and the CRUD operations.

use server::auth::{login, register};
use server::dto::{LoginRequest, RegisterRequest};
use server::errors::ApiError;
use server::store::AccountStore;
use server::users;

const SECRET: &str = "a-string-secret-at-least-256-bits-long";

fn register_req(email: &str, password: &str, name: &str) -> RegisterRequest {
    RegisterRequest {
        email: email.to_string(),
        password: password.to_string(),
        name: name.to_string(),
    }
}

fn login_req(email: &str, password: &str) -> LoginRequest {
    LoginRequest { email: email.to_string(), password: password.to_string() }
}

#[test]
fn register_then_login_succeeds() {
    let mut store = AccountStore::new();
    let resp = register(&mut store, register_req("a@x.com", "secret123", "A"), SECRET).unwrap();
    assert!(!resp.token.is_empty());
    assert_eq!(resp.user.email, "a@x.com");
    assert_eq!(resp.user.name, "A");
    assert_eq!(resp.user.status, "Inactive");
    assert_eq!(resp.user.role, "User");
    assert!(resp.user.created_at.is_some());

    let logged = login(&store, &login_req("a@x.com", "secret123"), SECRET).unwrap();
    assert_eq!(logged.user.email, "a@x.com");
    assert!(!logged.token.is_empty());
}

#[test]
fn login_failures_are_indistinguishable() {
    let mut store = AccountStore::new();
    register(&mut store, register_req("a@x.com", "secret123", "A"), SECRET).unwrap();

    let wrong_password = login(&store, &login_req("a@x.com", "wrong"), SECRET).unwrap_err();
    let unknown_email = login(&store, &login_req("b@x.com", "secret123"), SECRET).unwrap_err();
    assert_eq!(wrong_password, unknown_email);
    assert_eq!(wrong_password, ApiError::Unauthorized("Invalid credentials".to_string()));
    assert_eq!(wrong_password.status_code(), 401);
}

#[test]
fn duplicate_email_rejected() {
    let mut store = AccountStore::new();
    register(&mut store, register_req("a@x.com", "secret123", "A"), SECRET).unwrap();
    let err = register(&mut store, register_req("a@x.com", "other456", "B"), SECRET).unwrap_err();
    assert_eq!(err, ApiError::DuplicateEmail("Email already exists".to_string()));
    assert_eq!(err.status_code(), 409);
    assert_eq!(store.len(), 1);
}

#[test]
fn users_create_and_index() {
    let mut store = AccountStore::new();
    let d = users::create(
        &mut store,
        "c@x.com".to_string(),
        "pw123456".to_string(),
        "C".to_string(),
    )
    .unwrap();
    assert_eq!(d.email, "c@x.com");
    assert_eq!(d.status, "Active");
    assert_eq!(d.role, "User");

    let listed = users::index(&store);
    assert_eq!(listed.len(), 1);
    assert_eq!(listed[0].email, "c@x.com");
    // the password hash appears nowhere in the projection
    let json = listed[0].to_json();
    assert!(!json.contains("password"));
}

#[test]
fn users_show_update_destroy() {
    let mut store = AccountStore::new();
    let d = users::create(
        &mut store,
        "c@x.com".to_string(),
        "pw123456".to_string(),
        "C".to_string(),
    )
    .unwrap();

    let shown = users::show(&store, &d.id).unwrap();
    assert_eq!(shown.email, "c@x.com");
    // id text is normalized before lookup
    let shown_upper = users::show(&store, &d.id.to_uppercase()).unwrap();
    assert_eq!(shown_upper.id, d.id);

    let bad = users::show(&store, "not-a-uuid").unwrap_err();
    assert_eq!(bad, ApiError::InvalidRequest("Invalid user ID".to_string()));
    assert_eq!(bad.status_code(), 400);

    let missing = users::show(&store, "123e4567-e89b-12d3-a456-426614174000").unwrap_err();
    assert_eq!(missing, ApiError::NotFound("User not found".to_string()));
    assert_eq!(missing.status_code(), 404);

    let renamed = users::update(&mut store, &d.id, "Renamed".to_string()).unwrap();
    assert_eq!(renamed.name, "Renamed");
    assert_eq!(renamed.email, "c@x.com");
    assert_eq!(users::show(&store, &d.id).unwrap().name, "Renamed");

    users::destroy(&mut store, &d.id).unwrap();
    assert_eq!(store.len(), 0);
    let gone = users::show(&store, &d.id).unwrap_err();
    assert_eq!(gone, ApiError::NotFound("User not found".to_string()));
}

#[test]
fn create_duplicate_email_rejected() {
    let mut store = AccountStore::new();
    users::create(&mut store, "c@x.com".to_string(), "pw1".to_string(), "C".to_string()).unwrap();
    let err = users::create(
        &mut store,
        "c@x.com".to_string(),
        "pw2".to_string(),
        "D".to_string(),
    )
    .unwrap_err();
    assert_eq!(err, ApiError::DuplicateEmail("Email already exists".to_string()));
}

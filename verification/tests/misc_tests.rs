//! Tests for the error taxonomy, the configuration parsing, and the claim
//! payload round trips.

use server::cfg::{Configuration, Environment};
use server::claims::{Claims, Cliams};
use server::dto::UserDto;
use server::errors::{ApiError, ApiErrorResp};

#[test]
fn error_status_codes_are_exhaustive() {
    assert_eq!(ApiError::InvalidRequest("x".to_string()).status_code(), 400);
    assert_eq!(ApiError::Unauthorized("x".to_string()).status_code(), 401);
    assert_eq!(ApiError::Forbidden("x".to_string()).status_code(), 403);
    assert_eq!(ApiError::NotFound("x".to_string()).status_code(), 404);
    assert_eq!(ApiError::DuplicateEmail("x".to_string()).status_code(), 409);
    assert_eq!(ApiError::InternalError("x".to_string()).status_code(), 500);
}

#[test]
fn error_messages_hide_internal_detail() {
    assert_eq!(
        ApiError::InvalidRequest("bad body".to_string()).message(),
        "Invalid request: bad body"
    );
    assert_eq!(
        ApiError::Unauthorized("Invalid token".to_string()).message(),
        "Unauthorized: Invalid token"
    );
    assert_eq!(
        ApiError::InternalError("secret detail".to_string()).message(),
        "An internal server error has occurred."
    );
}

#[test]
fn error_response_body() {
    let resp = ApiError::NotFound("User not found".to_string()).to_resp();
    assert_eq!(resp.status, 404);
    assert_eq!(resp.message, "Not Found: User not found");
    assert_eq!(
        resp.to_json(),
        "{\"status\":404,\"message\":\"Not Found: User not found\"}"
    );
    let other = ApiErrorResp { status: 500, message: "x".to_string() };
    assert_eq!(other.to_json(), "{\"status\":500,\"message\":\"x\"}");
}

#[test]
fn environment_parsing() {
    assert_eq!(Environment::parse("development"), Ok(Environment::Development));
    assert_eq!(Environment::parse("production"), Ok(Environment::Production));
    let err = Environment::parse("staging").unwrap_err();
    assert_eq!(
        err,
        "Invalid environment: staging. Please make sure it is either \"development\" or \"production\"."
    );
}

#[test]
fn configuration_set_dsn() {
    let mut cfg = Configuration {
        env: Environment::Development,
        app_port: 3000,
        graphql_endpoint: "/graphql".to_string(),
        db_dsn: "postgres://localhost/one".to_string(),
        db_pool_max_size: 10,
        db_timeout: 5,
    };
    cfg.set_dsn("postgres://localhost/two".to_string());
    assert_eq!(cfg.db_dsn, "postgres://localhost/two");
    assert_eq!(cfg.app_port, 3000);
}

#[test]
fn claims_payload_round_trip() {
    let claims = Claims {
        sub: "id-1".to_string(),
        exp: 1999999999,
        iat: 1700000000,
        user: UserDto {
            id: "id-1".to_string(),
            email: "a@x.com".to_string(),
            name: "A".to_string(),
            status: "Active".to_string(),
            role: "Admin".to_string(),
            created_at: None,
            updated_at: Some("2024-01-01T00:00:00.000Z".to_string()),
        },
    };
    let json = claims.to_json();
    assert!(json.contains("\"sub\":\"id-1\""));
    assert!(json.contains("\"exp\":1999999999"));
    assert!(json.contains("\"iat\":1700000000"));
    let back = Claims::from_json(&json).unwrap();
    assert_eq!(back.sub, claims.sub);
    assert_eq!(back.exp, claims.exp);
    assert_eq!(back.iat, claims.iat);
    assert_eq!(back.user.email, claims.user.email);
}

#[test]
fn legacy_claims_round_trip() {
    let claims = Cliams { exp: 1999999999, iat: 1700000000, email: "a@x.com".to_string() };
    let json = claims.to_json();
    assert_eq!(json, "{\"exp\":1999999999,\"iat\":1700000000,\"email\":\"a@x.com\"}");
    let back = Cliams::from_json(&json).unwrap();
    assert_eq!(back.exp, claims.exp);
    assert_eq!(back.iat, claims.iat);
    assert_eq!(back.email, claims.email);
    assert!(Cliams::from_json("{\"exp\":1,\"iat\":2}").is_none());
}

#[test]
fn retrieve_user_resolves_from_store() {
    let mut store = server::store::AccountStore::new();
    server::users::create(
        &mut store,
        "someone@example.com".to_string(),
        "pw123456".to_string(),
        "Someone".to_string(),
    )
    .unwrap();
    let user = server::middleware::retrieve_user_by_email(&store, "someone@example.com").unwrap();
    assert_eq!(user.email, "someone@example.com");
    assert_eq!(user.first_name, "Someone");
    assert_eq!(user.last_name, "");
    assert!(!user.password_hash.is_empty());
    assert!(server::middleware::retrieve_user_by_email(&store, "nobody@example.com").is_none());
}

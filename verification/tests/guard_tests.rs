//! Tests for the guards across both surfaces: bearer authorization, the
//! admin role gate, the GraphQL guard registry, the authorize middleware,
//! and the basic-authentication check.

use server::auth::register;
use server::dto::RegisterRequest;
use server::enums::UserRole;
use server::errors::ApiError;
use server::guards::{
    admin_guard, authorize_request, evaluate_entity_guard, evaluate_field_guard, gql_admin_guard,
    setup_guards, GuardAction,
};
use server::middleware::{authorize_core, basic_auth_check, encode_jwt};
use server::store::AccountStore;
use server::token::issue_token;
use server::users;

const SECRET: &str = "a-string-secret-at-least-256-bits-long";

fn now_secs() -> u64 {
    chrono::Utc::now().timestamp() as u64
}

#[test]
fn registered_user_passes_auth_but_not_admin_gate() {
    // register through the exact request body of the endpoint
    let req =
        RegisterRequest::from_json(r#"{"email":"a@x.com","password":"secret123","name":"A"}"#)
            .unwrap();
    let mut store = AccountStore::new();
    let resp = register(&mut store, req, SECRET).unwrap();
    let now = now_secs();

    // the issued token authorizes the request and attaches the identity
    let header = format!("Bearer {}", resp.token);
    let identity = authorize_request(Some(&header), SECRET, now).unwrap();
    assert_eq!(identity.email, "a@x.com");

    // the user list has no role gate: the authorized identity can read it
    let listed = users::index(&store);
    assert_eq!(listed.len(), 1);

    // an admin-only action is forbidden for the non-admin identity
    let denied = admin_guard(Some(&identity)).unwrap_err();
    assert_eq!(denied, ApiError::Forbidden("Admin access required".to_string()));
    assert_eq!(denied.status_code(), 403);

    // omitting the header entirely is unauthorized, not forbidden
    let missing = authorize_request(None, SECRET, now).unwrap_err();
    assert_eq!(missing, ApiError::Unauthorized("Missing authorization header".to_string()));
    assert_eq!(missing.status_code(), 401);

    // a non-bearer scheme is rejected as a format error
    let wrong_scheme = authorize_request(Some("Token abc"), SECRET, now).unwrap_err();
    assert_eq!(wrong_scheme, ApiError::Unauthorized("Invalid authorization format".to_string()));
}

#[test]
fn expired_token_distinguishable_from_malformed() {
    let mut store = AccountStore::new();
    let resp = register(
        &mut store,
        RegisterRequest {
            email: "a@x.com".to_string(),
            password: "secret123".to_string(),
            name: "A".to_string(),
        },
        SECRET,
    )
    .unwrap();
    let now = now_secs();

    // craft a token whose expiry lies one second in the past
    let mut claims = server::claims::Claims {
        sub: resp.user.id.clone(),
        exp: now - 1,
        iat: now - 100,
        user: resp.user.clone(),
    };
    claims.user.status = "Inactive".to_string();
    let stale = issue_token(&claims, SECRET).unwrap();

    let header = format!("Bearer {}", stale);
    let expired = authorize_request(Some(&header), SECRET, now).unwrap_err();
    assert_eq!(expired, ApiError::Unauthorized("Token has expired".to_string()));
    assert_eq!(expired.status_code(), 401);

    let malformed = authorize_request(Some("Bearer garbage"), SECRET, now).unwrap_err();
    assert_eq!(malformed, ApiError::Unauthorized("Invalid token".to_string()));
    assert_eq!(malformed.status_code(), 401);

    // same status class, distinguishable reasons
    assert_eq!(expired.status_code(), malformed.status_code());
    assert_ne!(expired, malformed);
}

#[test]
fn guard_parity_across_surfaces() {
    let admin_identity = server::dto::UserDto {
        id: "1".to_string(),
        email: "root@x.com".to_string(),
        name: "Root".to_string(),
        status: "Active".to_string(),
        role: "Admin".to_string(),
        created_at: None,
        updated_at: None,
    };
    let mut user_identity = admin_identity.clone();
    user_identity.role = "User".to_string();

    // REST surface
    assert!(admin_guard(Some(&admin_identity)).is_ok());
    assert!(admin_guard(Some(&user_identity)).is_err());
    assert_eq!(
        admin_guard(None).unwrap_err(),
        ApiError::Unauthorized("User not found in request".to_string())
    );

    // GraphQL surface: the same verdicts for the same roles
    assert_eq!(gql_admin_guard(Some(&UserRole::Admin)), GuardAction::Allow);
    assert_eq!(
        gql_admin_guard(Some(&UserRole::User)),
        GuardAction::Block(Some("Admin role required".to_string()))
    );
    assert_eq!(
        gql_admin_guard(None),
        GuardAction::Block(Some("Admin role required".to_string()))
    );
}

#[test]
fn guard_registry_gates_the_configured_names() {
    let cfg = setup_guards();

    assert_eq!(
        evaluate_entity_guard(&cfg, "users", Some(&UserRole::Admin)),
        GuardAction::Allow
    );
    assert_eq!(
        evaluate_entity_guard(&cfg, "users", Some(&UserRole::User)),
        GuardAction::Block(Some("Admin role required".to_string()))
    );
    assert_eq!(
        evaluate_entity_guard(&cfg, "health", Some(&UserRole::User)),
        GuardAction::Allow
    );

    assert_eq!(
        evaluate_field_guard(&cfg, "users.role", Some(&UserRole::User)),
        GuardAction::Block(Some("Admin role required".to_string()))
    );
    assert_eq!(
        evaluate_field_guard(&cfg, "users.status", None),
        GuardAction::Block(Some("Admin role required".to_string()))
    );
    assert_eq!(
        evaluate_field_guard(&cfg, "users.email", Some(&UserRole::User)),
        GuardAction::Allow
    );
}

#[test]
fn authorize_middleware_flow() {
    let now = now_secs();
    let mut store = AccountStore::new();
    server::users::create(
        &mut store,
        "someone@example.com".to_string(),
        "pw123456".to_string(),
        "Someone".to_string(),
    )
    .unwrap();
    let token = encode_jwt("someone@example.com".to_string(), SECRET).unwrap();

    let header = format!("Bearer {}", token);
    let user = authorize_core(&store, Some(&header), SECRET, now).unwrap();
    assert_eq!(user.email, "someone@example.com");
    assert_eq!(user.first_name, "Someone");

    // every rejection is unauthorized: the caller's identity is unknown
    let missing = authorize_core(&store, None, SECRET, now).unwrap_err();
    assert_eq!(
        missing,
        ApiError::Unauthorized("Please add the JWT token to the header".to_string())
    );
    assert_eq!(missing.status_code(), 401);

    let wrong_scheme = authorize_core(&store, Some("Basic abc"), SECRET, now).unwrap_err();
    assert_eq!(
        wrong_scheme,
        ApiError::Unauthorized("Authorization method not supported".to_string())
    );
    assert_eq!(wrong_scheme.status_code(), 401);

    // the scheme word alone, with no token after it, is a format error
    let scheme_only = authorize_core(&store, Some("Bearer"), SECRET, now).unwrap_err();
    assert_eq!(scheme_only, ApiError::Unauthorized("Invalid authorization format".to_string()));
    let scheme_only_ws = authorize_core(&store, Some("  Bearer   "), SECRET, now).unwrap_err();
    assert_eq!(
        scheme_only_ws,
        ApiError::Unauthorized("Invalid authorization format".to_string())
    );

    let bad_token = authorize_core(&store, Some("Bearer garbage"), SECRET, now).unwrap_err();
    assert_eq!(bad_token, ApiError::Unauthorized("Unable to decode token".to_string()));
    assert_eq!(bad_token.status_code(), 401);

    // a well-signed token whose subject is not stored resolves no user
    let stranger = encode_jwt("nobody@example.com".to_string(), SECRET).unwrap();
    let unresolved =
        authorize_core(&store, Some(&format!("Bearer {}", stranger)), SECRET, now).unwrap_err();
    assert_eq!(
        unresolved,
        ApiError::Unauthorized("You are not an authorized user".to_string())
    );
}

#[test]
fn basic_auth_checks_credentials() {
    let encoded = base64::Engine::encode(&base64::engine::general_purpose::STANDARD, "me:secret");
    let header = format!("Basic {}", encoded);
    assert!(basic_auth_check(Some(&header), "me:secret"));
    assert!(!basic_auth_check(Some(&header), "me:other"));
    assert!(!basic_auth_check(Some(&header), "you:secret"));
    assert!(!basic_auth_check(None, "me:secret"));
    assert!(!basic_auth_check(Some("Bearer abc"), "me:secret"));
    assert!(!basic_auth_check(Some("Basic !!!"), "me:secret"));
}

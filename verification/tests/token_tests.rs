//! Tests for the token codec: round trips, expiry, signature, and structure
//! failures, checked against the real signing library.

use server::claims::Claims;
use server::dto::UserDto;
use server::middleware::{decode_jwt, encode_jwt};
use server::token::{issue_token, verify_token, TokenError};

fn now_secs() -> u64 {
    chrono::Utc::now().timestamp() as u64
}

fn sample_claims(exp: u64, iat: u64) -> Claims {
    Claims {
        sub: "4f9f9d5a-32f4-4d09-9a61-6d9c6f9d0001".to_string(),
        exp,
        iat,
        user: UserDto {
            id: "4f9f9d5a-32f4-4d09-9a61-6d9c6f9d0001".to_string(),
            email: "a@x.com".to_string(),
            name: "A".to_string(),
            status: "Inactive".to_string(),
            role: "User".to_string(),
            created_at: Some("2024-01-01T00:00:00.000Z".to_string()),
            updated_at: None,
        },
    }
}

#[test]
fn token_round_trip_before_expiry() {
    let now = now_secs();
    let claims = sample_claims(now + 1000, now);
    let token = issue_token(&claims, "test-secret").unwrap();
    let back = verify_token(&token, "test-secret", now).unwrap();
    assert_eq!(back.sub, claims.sub);
    assert_eq!(back.exp, claims.exp);
    assert_eq!(back.iat, claims.iat);
    assert_eq!(back.user.email, claims.user.email);
    assert_eq!(back.user.name, claims.user.name);
    assert_eq!(back.user.status, claims.user.status);
    assert_eq!(back.user.role, claims.user.role);
    assert_eq!(back.user.created_at, claims.user.created_at);
    assert_eq!(back.user.updated_at, claims.user.updated_at);
}

#[test]
fn token_expired_at_and_after_exp() {
    let now = now_secs();
    let claims = sample_claims(now - 1, now - 1000);
    let token = issue_token(&claims, "test-secret").unwrap();
    assert_eq!(verify_token(&token, "test-secret", now).unwrap_err(), TokenError::Expired);
    let boundary = sample_claims(now, now - 1000);
    let token2 = issue_token(&boundary, "test-secret").unwrap();
    assert_eq!(verify_token(&token2, "test-secret", now).unwrap_err(), TokenError::Expired);
}

#[test]
fn token_rejected_under_other_secret() {
    let now = now_secs();
    let claims = sample_claims(now + 1000, now);
    let token = issue_token(&claims, "secret-one").unwrap();
    assert_eq!(
        verify_token(&token, "secret-two", now).unwrap_err(),
        TokenError::InvalidSignature
    );
    // the expiry check never hides a bad signature
    let stale = sample_claims(now - 50, now - 1000);
    let stale_token = issue_token(&stale, "secret-one").unwrap();
    assert_eq!(
        verify_token(&stale_token, "secret-two", now).unwrap_err(),
        TokenError::InvalidSignature
    );
}

#[test]
fn token_malformed_inputs() {
    let now = now_secs();
    assert_eq!(verify_token("", "s", now).unwrap_err(), TokenError::Malformed);
    assert_eq!(verify_token("abc", "s", now).unwrap_err(), TokenError::Malformed);
    assert_eq!(
        verify_token("a.b.c", "s", now).unwrap_err(),
        TokenError::Malformed
    );
}

#[test]
fn token_agrees_with_signing_library() {
    // the token this crate issues is accepted by the signing library's own
    // decoder under the same secret, with the same payload
    let now = now_secs();
    let claims = sample_claims(now + 1000, now);
    let token = issue_token(&claims, "shared-secret").unwrap();

    let mut validation = jsonwebtoken::Validation::new(jsonwebtoken::Algorithm::HS256);
    validation.validate_exp = false;
    validation.validate_aud = false;
    validation.required_spec_claims = std::collections::HashSet::new();
    let data = jsonwebtoken::decode::<serde_json::Value>(
        &token,
        &jsonwebtoken::DecodingKey::from_secret("shared-secret".as_bytes()),
        &validation,
    )
    .unwrap();
    assert_eq!(data.claims["sub"], claims.sub.as_str());
    assert_eq!(data.claims["exp"], claims.exp);
    assert_eq!(data.claims["iat"], claims.iat);
    assert_eq!(data.claims["user"]["email"], "a@x.com");
    assert_eq!(data.claims["user"]["updated_at"], serde_json::Value::Null);
}

#[test]
fn legacy_token_round_trip() {
    let now = now_secs();
    let token = encode_jwt("someone@example.com".to_string(), "legacy-secret").unwrap();
    assert!(!token.is_empty());
    let claims = decode_jwt(token.clone(), "legacy-secret", now).unwrap();
    assert_eq!(claims.email, "someone@example.com");
    assert!(claims.exp > now);
    // each failing check is told apart: expiry, structure, signature
    assert_eq!(
        decode_jwt(token.clone(), "legacy-secret", claims.exp).unwrap_err(),
        TokenError::Expired
    );
    assert_eq!(
        decode_jwt("garbage".to_string(), "legacy-secret", now).unwrap_err(),
        TokenError::Malformed
    );
    assert_eq!(
        decode_jwt(token, "other-secret", now).unwrap_err(),
        TokenError::InvalidSignature
    );
}

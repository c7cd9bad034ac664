//! Tests for the health endpoint's body.

use server::health;

#[test]
fn test_health_index_returns_ok() {
    let result = health::index();
    assert_eq!(result.to_json(), "{\"status\":\"ok\"}");
}

#[test]
fn test_health_index_has_status_field() {
    let result = health::index();
    assert!(!result.status.is_empty());
    assert_eq!(result.status, "ok");
}

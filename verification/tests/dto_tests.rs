//! Wire-form tests for the request and response bodies.

use server::dto::{LoginRequest, RegisterRequest, UserCreate, UserDto};

#[test]
fn test_login_request_serialization() {
    let login_req = LoginRequest {
        email: "test@example.com".to_string(),
        password: "password123".to_string(),
    };

    let json = login_req.to_json();
    assert!(json.contains("\"email\":\"test@example.com\""));
    assert!(json.contains("\"password\":\"password123\""));
}

#[test]
fn test_login_request_deserialization() {
    let json = r#"{"email":"user@test.com","password":"secret"}"#;
    let login_req: LoginRequest = LoginRequest::from_json(json).unwrap();
    assert_eq!(login_req.email, "user@test.com");
    assert_eq!(login_req.password, "secret");
}

#[test]
fn test_register_request_serialization() {
    let register_req = RegisterRequest {
        email: "newuser@example.com".to_string(),
        password: "securepass".to_string(),
        name: "John Doe".to_string(),
    };

    let json = register_req.to_json();
    assert!(json.contains("\"email\":\"newuser@example.com\""));
    assert!(json.contains("\"password\":\"securepass\""));
    assert!(json.contains("\"name\":\"John Doe\""));
}

#[test]
fn test_register_request_deserialization() {
    let json = r#"{"email":"jane@test.com","password":"pass123","name":"Jane Smith"}"#;
    let register_req: RegisterRequest = RegisterRequest::from_json(json).unwrap();
    assert_eq!(register_req.email, "jane@test.com");
    assert_eq!(register_req.password, "pass123");
    assert_eq!(register_req.name, "Jane Smith");
}

#[test]
fn test_user_create_serialization() {
    let user = UserCreate {
        email: "test@example.com".to_string(),
        password: "secure123".to_string(),
        name: "Test User".to_string(),
    };

    let json = user.to_json();
    assert!(json.contains("\"email\":\"test@example.com\""));
    assert!(json.contains("\"password\":\"secure123\""));
    assert!(json.contains("\"name\":\"Test User\""));
}

#[test]
fn test_user_create_deserialization() {
    let json = r#"{"email":"john@test.com","password":"pass456","name":"John Doe"}"#;
    let user: UserCreate = UserCreate::from_json(json).unwrap();
    assert_eq!(user.email, "john@test.com");
    assert_eq!(user.password, "pass456");
    assert_eq!(user.name, "John Doe");
}

#[test]
fn test_user_dto_default() {
    let dto = UserDto::default();
    assert_eq!(dto.id, "");
    assert_eq!(dto.email, "");
    assert_eq!(dto.name, "");
    assert_eq!(dto.status, "");
    assert_eq!(dto.role, "");
    assert!(dto.created_at.is_none());
    assert!(dto.updated_at.is_none());
}

#[test]
fn test_user_dto_serialization() {
    let dto = UserDto {
        id: "123e4567-e89b-12d3-a456-426614174000".to_string(),
        email: "user@test.com".to_string(),
        name: "Test User".to_string(),
        status: "Active".to_string(),
        role: "User".to_string(),
        created_at: Some("2024-01-01T00:00:00.000Z".to_string()),
        updated_at: Some("2024-01-02T00:00:00.000Z".to_string()),
    };

    let json = dto.to_json();
    assert!(json.contains("\"id\":\"123e4567-e89b-12d3-a456-426614174000\""));
    assert!(json.contains("\"email\":\"user@test.com\""));
    assert!(json.contains("\"name\":\"Test User\""));
    assert!(json.contains("\"status\":\"Active\""));
    assert!(json.contains("\"role\":\"User\""));
}

#[test]
fn test_user_dto_deserialization() {
    let json = r#"{
      "id":"550e8400-e29b-41d4-a716-446655440000",
      "email":"jane@example.com",
      "name":"Jane Smith",
      "status":"Inactive",
      "role":"Admin",
      "created_at":"2024-01-01T12:00:00.000Z",
      "updated_at":"2024-01-01T12:00:00.000Z"
    }"#;
    let dto: UserDto = UserDto::from_json(json).unwrap();
    assert_eq!(dto.id, "550e8400-e29b-41d4-a716-446655440000");
    assert_eq!(dto.email, "jane@example.com");
    assert_eq!(dto.name, "Jane Smith");
    assert_eq!(dto.status, "Inactive");
    assert_eq!(dto.role, "Admin");
    assert!(dto.created_at.is_some());
    assert!(dto.updated_at.is_some());
}

#[test]
fn test_user_dto_json_round_trip_with_escapes() {
    let dto = UserDto {
        id: "id-1".to_string(),
        email: "quote\"back\\slash@x.com".to_string(),
        name: "line\nbreak\ttab".to_string(),
        status: "Active".to_string(),
        role: "User".to_string(),
        created_at: None,
        updated_at: Some("2024-01-01T00:00:00.000Z".to_string()),
    };
    let json = dto.to_json();
    assert!(json.contains("\"created_at\":null"));
    assert!(json.contains("quote\\\"back\\\\slash@x.com"));
    assert!(json.contains("line\\u000abreak\\u0009tab"));
    let back = UserDto::from_json(&json).unwrap();
    assert_eq!(back.id, dto.id);
    assert_eq!(back.email, dto.email);
    assert_eq!(back.name, dto.name);
    assert_eq!(back.status, dto.status);
    assert_eq!(back.role, dto.role);
    assert_eq!(back.created_at, dto.created_at);
    assert_eq!(back.updated_at, dto.updated_at);
}

#[test]
fn test_user_dto_rejects_malformed_json() {
    assert!(UserDto::from_json("").is_none());
    assert!(UserDto::from_json("{}").is_none());
    assert!(UserDto::from_json("{\"id\":\"a\"}").is_none());
    assert!(LoginRequest::from_json("{\"email\":\"a\",\"password\":3}").is_none());
    assert!(LoginRequest::from_json("{\"email\":\"a\",\"password\":\"b\"} x").is_none());
}

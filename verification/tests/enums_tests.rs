//! Tests for the role and status classifications and their wire forms.

use server::enums::{UserRole, UserStatus};

#[test]
fn test_user_role_default() {
    assert_eq!(UserRole::default(), UserRole::User);
}

#[test]
fn test_user_role_variants() {
    assert_eq!(UserRole::Admin, UserRole::Admin);
    assert_eq!(UserRole::User, UserRole::User);
    assert_ne!(UserRole::Admin, UserRole::User);
}

#[test]
fn test_user_role_serialization() {
    let admin = UserRole::Admin;
    let user = UserRole::User;

    let admin_json = admin.to_json();
    let user_json = user.to_json();

    assert_eq!(admin_json, "\"Admin\"");
    assert_eq!(user_json, "\"User\"");
}

#[test]
fn test_user_role_deserialization() {
    let admin_json = "\"Admin\"";
    let user_json = "\"User\"";

    let admin: UserRole = UserRole::from_json(admin_json).unwrap();
    let user: UserRole = UserRole::from_json(user_json).unwrap();

    assert_eq!(admin, UserRole::Admin);
    assert_eq!(user, UserRole::User);
}

#[test]
fn test_user_status_default() {
    assert_eq!(UserStatus::default(), UserStatus::Inactive);
}

#[test]
fn test_user_status_variants() {
    assert_eq!(UserStatus::Active, UserStatus::Active);
    assert_eq!(UserStatus::Inactive, UserStatus::Inactive);
    assert_eq!(UserStatus::Banned, UserStatus::Banned);
    assert_ne!(UserStatus::Active, UserStatus::Inactive);
    assert_ne!(UserStatus::Active, UserStatus::Banned);
}

#[test]
fn test_user_status_serialization() {
    let active = UserStatus::Active;
    let inactive = UserStatus::Inactive;
    let banned = UserStatus::Banned;

    let active_json = active.to_json();
    let inactive_json = inactive.to_json();
    let banned_json = banned.to_json();

    assert_eq!(active_json, "\"Active\"");
    assert_eq!(inactive_json, "\"Inactive\"");
    assert_eq!(banned_json, "\"Banned\"");
}

#[test]
fn test_user_status_deserialization() {
    let active_json = "\"Active\"";
    let inactive_json = "\"Inactive\"";
    let banned_json = "\"Banned\"";

    let active: UserStatus = UserStatus::from_json(active_json).unwrap();
    let inactive: UserStatus = UserStatus::from_json(inactive_json).unwrap();
    let banned: UserStatus = UserStatus::from_json(banned_json).unwrap();

    assert_eq!(active, UserStatus::Active);
    assert_eq!(inactive, UserStatus::Inactive);
    assert_eq!(banned, UserStatus::Banned);
}

#[test]
fn test_enum_wire_values() {
    assert_eq!(UserRole::Admin.value(), "Admin");
    assert_eq!(UserRole::User.value(), "User");
    assert_eq!(UserStatus::Active.value(), "Active");
    assert_eq!(UserStatus::Inactive.value(), "Inactive");
    assert_eq!(UserStatus::Banned.value(), "Banned");
    assert!(UserRole::from_json("Admin").is_none());
    assert!(UserStatus::from_json("\"Unknown\"").is_none());
}

use eshop_auth::error::AuthError;
use eshop_auth::admin::{authorize_admin, is_admin, require_admin};
use eshop_auth::models::{Role, User};

fn alice() -> User {
    User {
        id: 7,
        username: "alice".to_string(),
        password: "$argon2id$stored".to_string(),
        email: "alice@example.com".to_string(),
        created_at: 0,
    }
}

fn role(id: i32, code: &str) -> Role {
    Role { id, code: code.to_string(), name: code.to_uppercase(), created_at: 0 }
}

#[test]
fn user_role_alone_is_forbidden() {
    assert_eq!(authorize_admin(alice(), Some(vec![role(2, "user")])), Err(AuthError::Forbidden));
}

#[test]
fn user_and_admin_roles_are_granted() {
    let admin = authorize_admin(alice(), Some(vec![role(2, "user"), role(1, "admin")])).unwrap();
    assert_eq!(admin.user(), &alice());
    assert_eq!(admin.into_user(), alice());
}

#[test]
fn failed_role_lookup_is_forbidden() {
    assert_eq!(authorize_admin(alice(), None), Err(AuthError::Forbidden));
}

#[test]
fn no_roles_is_forbidden() {
    assert_eq!(authorize_admin(alice(), Some(Vec::new())), Err(AuthError::Forbidden));
}

#[test]
fn admin_first_or_last_is_granted() {
    assert!(is_admin(&vec![role(1, "admin")]));
    assert!(is_admin(&vec![role(1, "admin"), role(2, "user")]));
    assert!(is_admin(&vec![role(2, "user"), role(3, "user"), role(1, "admin")]));
}

#[test]
fn code_is_matched_exactly() {
    assert!(!is_admin(&vec![role(1, "Admin")]));
    assert!(!is_admin(&vec![role(1, "ADMIN")]));
    assert!(!is_admin(&vec![role(1, "admin ")]));
    assert!(!is_admin(&vec![role(1, "administrator")]));
    assert!(!is_admin(&vec![role(1, "")]));
    assert!(!is_admin(&vec![role(1, "root"), role(2, "user")]));
}

#[test]
fn role_name_does_not_count() {
    let named = Role { id: 1, code: "user".to_string(), name: "admin".to_string(), created_at: 0 };
    assert!(!is_admin(&vec![named]));
}

#[test]
fn unresolved_request_is_unauthenticated_not_forbidden() {
    assert_eq!(
        require_admin(Err(AuthError::Unauthenticated), Some(vec![role(1, "admin")])),
        Err(AuthError::Unauthenticated)
    );
    assert_eq!(require_admin(Err(AuthError::Unauthenticated), None), Err(AuthError::Unauthenticated));
}

#[test]
fn resolved_request_is_admitted_with_admin() {
    let admin = require_admin(Ok(alice()), Some(vec![role(1, "admin")])).unwrap();
    assert_eq!(admin.into_user(), alice());
    assert_eq!(require_admin(Ok(alice()), Some(vec![role(2, "user")])), Err(AuthError::Forbidden));
    assert_eq!(require_admin(Ok(alice()), None), Err(AuthError::Forbidden));
}

use eshop_auth::error::AuthError;

#[test]
fn statuses() {
    assert_eq!(AuthError::InvalidCredentials.status(), 401);
    assert_eq!(AuthError::Unauthenticated.status(), 401);
    assert_eq!(AuthError::Forbidden.status(), 403);
    assert_eq!(AuthError::Hashing.status(), 500);
    assert_eq!(AuthError::StoreUnavailable.status(), 500);
}

#[test]
fn messages_are_generic() {
    assert_eq!(AuthError::InvalidCredentials.message(), "unauthorized");
    assert_eq!(AuthError::Unauthenticated.message(), "unauthorized");
    assert_eq!(AuthError::Forbidden.message(), "forbidden");
    assert_eq!(AuthError::Hashing.message(), "internal server error");
    assert_eq!(AuthError::StoreUnavailable.message(), "internal server error");
}

#[test]
fn forbidden_differs_from_unauthenticated() {
    assert_ne!(AuthError::Forbidden.status(), AuthError::Unauthenticated.status());
    assert_ne!(AuthError::Forbidden.message(), AuthError::Unauthenticated.message());
}

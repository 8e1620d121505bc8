use eshop_auth::models::{role_ids, RoleCode, UserRole};

#[test]
fn role_code_reads_admin() {
    assert_eq!(RoleCode::from_str("admin"), Ok(RoleCode::Admin));
}

#[test]
fn role_code_reads_user() {
    assert_eq!(RoleCode::from_str("user"), Ok(RoleCode::User));
}

#[test]
fn role_code_refuses_other_text() {
    assert_eq!(RoleCode::from_str("Admin"), Err(()));
    assert_eq!(RoleCode::from_str("ADMIN"), Err(()));
    assert_eq!(RoleCode::from_str(""), Err(()));
    assert_eq!(RoleCode::from_str("admin "), Err(()));
    assert_eq!(RoleCode::from_str(" user"), Err(()));
    assert_eq!(RoleCode::from_str("users"), Err(()));
    assert_eq!(RoleCode::from_str("adm"), Err(()));
    assert_eq!(RoleCode::from_str("root"), Err(()));
}

#[test]
fn role_code_writes_its_text() {
    assert_eq!(RoleCode::Admin.to_string(), "admin");
    assert_eq!(RoleCode::User.to_string(), "user");
}

#[test]
fn role_code_text_round_trip() {
    for code in [RoleCode::Admin, RoleCode::User] {
        assert_eq!(RoleCode::from_str(&code.to_string()), Ok(code));
    }
}

#[test]
fn role_code_reads_bytes() {
    assert_eq!(RoleCode::from_bytes(b"admin"), Some(RoleCode::Admin));
    assert_eq!(RoleCode::from_bytes(b"user"), Some(RoleCode::User));
    assert_eq!(RoleCode::from_bytes(b""), None);
    assert_eq!(RoleCode::from_bytes(b"User"), None);
    assert_eq!(RoleCode::from_bytes(b"admin\0"), None);
    assert_eq!(RoleCode::from_bytes(&[0xff, 0xfe]), None);
}

#[test]
fn role_code_writes_bytes() {
    assert_eq!(RoleCode::Admin.to_bytes(), b"admin".to_vec());
    assert_eq!(RoleCode::User.to_bytes(), b"user".to_vec());
}

#[test]
fn role_code_bytes_round_trip() {
    for code in [RoleCode::Admin, RoleCode::User] {
        assert_eq!(RoleCode::from_bytes(&code.to_bytes()), Some(code));
        assert_eq!(code.to_bytes(), code.to_string().into_bytes());
    }
}

#[test]
fn role_ids_follow_the_links() {
    let links = vec![
        UserRole { id: 1, user_id: 7, role_id: 30 },
        UserRole { id: 2, user_id: 7, role_id: 10 },
        UserRole { id: 5, user_id: 7, role_id: 30 },
    ];
    assert_eq!(role_ids(&links), vec![30, 10, 30]);
}

#[test]
fn role_ids_of_no_links() {
    assert_eq!(role_ids(&Vec::new()), Vec::<i32>::new());
}

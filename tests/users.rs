use core_rust_qti::model::{User, UserProfile};
use core_rust_qti::schema::user::{ResetPasswordRequest, UserCreateRequest, UserUpdateRequest};
use core_rust_qti::security::verify_hash_password;
use core_rust_qti::users::{
    add_user_group_role, delete_user_group_role, new_user, replace_user_group_roles, reset_password,
    update_user, AssignmentError, AssignmentLookup, Member, ResetError,
};

fn found(assigned: bool) -> AssignmentLookup {
    AssignmentLookup { user_found: true, role_found: true, group_found: true, assigned }
}

#[test]
fn new_user_hashes_password_and_records_actor() {
    let req = UserCreateRequest {
        first_name: Some("first".to_string()),
        last_name: Some("last".to_string()),
        email: Some("email@local.com".to_string()),
        is_active: true,
        password: "password".to_string(),
        user_name: "test_user".to_string(),
        address: None,
        group_roles: None,
    };
    let (u, p) = new_user(req, 7, 100).unwrap();
    assert_eq!(u.user_name, "test_user");
    assert_ne!(u.password, "password");
    assert_eq!(verify_hash_password("password", &u.password), Ok(true));
    assert_eq!(u.is_active, Some(true));
    assert_eq!((u.created_by, u.updated_by), (Some(7), Some(7)));
    assert_eq!((u.created_date, u.updated_date, u.deleted_date), (Some(100), Some(100), None));
    assert_eq!(p.user_id, u.id);
    assert_eq!(p.first_name.as_deref(), Some("first"));
    assert_eq!(p.email.as_deref(), Some("email@local.com"));
}

#[test]
fn assignment_rules() {
    let row = add_user_group_role(1, 2, 3, &found(false)).unwrap();
    assert_eq!((row.user_id, row.role_id, row.group_id), (Some(1), Some(2), Some(3)));
    assert_eq!(add_user_group_role(1, 2, 3, &found(true)).err(), Some(AssignmentError::Conflict));
    let mut l = found(false);
    l.role_found = false;
    assert_eq!(add_user_group_role(1, 2, 3, &l).err(), Some(AssignmentError::NotFound(Member::Role)));
    assert_eq!(delete_user_group_role(&found(true)), Ok(()));
    assert_eq!(delete_user_group_role(&found(false)), Err(AssignmentError::NotFound(Member::Assignment)));
    l.user_found = false;
    assert_eq!(delete_user_group_role(&l), Err(AssignmentError::NotFound(Member::User)));
}

#[test]
fn replacing_pairs_writes_one_row_each() {
    let rows = replace_user_group_roles(5, &vec![(1, 2), (3, 4)]);
    assert_eq!(rows.len(), 2);
    assert_eq!((rows[0].user_id, rows[0].role_id, rows[0].group_id), (Some(5), Some(1), Some(2)));
    assert_eq!((rows[1].user_id, rows[1].role_id, rows[1].group_id), (Some(5), Some(3), Some(4)));
    assert_ne!(rows[0].id, rows[1].id);
    assert!(replace_user_group_roles(5, &vec![]).is_empty());
}

fn stored() -> (User, UserProfile) {
    let user = User {
        id: 42,
        user_name: "old".to_string(),
        password: "stale".to_string(),
        is_active: Some(false),
        is_2faenabled: Some(true),
        created_by: Some(1),
        updated_by: Some(1),
        created_date: Some(10),
        updated_date: Some(10),
        deleted_date: None,
    };
    let profile = UserProfile {
        id: 43,
        user_id: 42,
        first_name: None,
        last_name: None,
        address: None,
        email: None,
    };
    (user, profile)
}

#[test]
fn update_user_rewrites_name_status_and_password() {
    let (user, profile) = stored();
    let req = UserUpdateRequest {
        first_name: Some("f".to_string()),
        last_name: None,
        email: None,
        is_active: true,
        password: "fresh".to_string(),
        user_name: "new".to_string(),
        address: Some("street".to_string()),
        group_roles: None,
    };
    let (u, p) = update_user(user, profile, req, 9, 50).unwrap();
    assert_eq!((u.id, u.user_name.as_str(), u.is_active), (42, "new", Some(true)));
    assert_eq!(verify_hash_password("fresh", &u.password), Ok(true));
    assert_eq!((u.created_by, u.created_date), (Some(1), Some(10)));
    assert_eq!((u.updated_by, u.updated_date), (Some(9), Some(50)));
    assert_eq!(u.is_2faenabled, Some(true));
    assert_eq!((p.id, p.user_id), (43, 42));
    assert_eq!(p.address.as_deref(), Some("street"));
}

#[test]
fn reset_password_requires_confirmation() {
    let (user, _) = stored();
    let bad = ResetPasswordRequest { new_password: "a".to_string(), confirm_new_password: "b".to_string() };
    assert_eq!(reset_password(user, &bad, 9, 50).err(), Some(ResetError::Mismatch));
    let (user, _) = stored();
    let good = ResetPasswordRequest { new_password: "a".to_string(), confirm_new_password: "a".to_string() };
    let u = reset_password(user, &good, 9, 50).unwrap();
    assert_eq!(verify_hash_password("a", &u.password), Ok(true));
    assert_eq!(verify_hash_password("stale", &u.password), Ok(false));
    assert_eq!((u.updated_by, u.updated_date, u.user_name.as_str()), (Some(9), Some(50), "old"));
}

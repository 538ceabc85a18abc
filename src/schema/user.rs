//! Request and response bodies of the user endpoints.

use vstd::prelude::*;

verus! {

/// One detail created or updated user entry of a response.
pub struct DetailCreatedOrUpdatedUser {
    pub id: String,
    pub user_name: String,
}

/// One detail user entry of a response.
pub struct DetailUser {
    pub id: String,
    pub user_name: String,
    pub is_active: bool,
    pub is_2faenabled: bool,
    pub created_date: String,
    pub updated_date: String,
    pub created_by: Option<DetailCreatedOrUpdatedUser>,
}

/// One detail user profile entry of a response.
pub struct DetailUserProfile {
    pub first_name: Option<String>,
    pub last_name: Option<String>,
    pub email: Option<String>,
    pub address: Option<String>,
}

/// One detail role entry of a response.
pub struct DetailRole {
    pub id: String,
    pub role_name: String,
}

/// One detail group entry of a response.
pub struct DetailGroup {
    pub id: String,
    pub group_name: String,
}

/// One detail group role entry of a response.
pub struct DetailGroupRole {
    pub role: Option<DetailRole>,
    pub group: Option<DetailGroup>,
}

/// The body of a user detail response.
pub struct UserDetailResponse {
    pub id: String,
    pub user_name: String,
    pub is_active: Option<bool>,
    pub is_2faenabled: Option<bool>,
    pub created_date: Option<String>,
    pub updated_date: Option<String>,
    pub user_profile: Option<DetailUserProfile>,
    pub created_by: Option<DetailCreatedOrUpdatedUser>,
    pub updated_by: Option<DetailCreatedOrUpdatedUser>,
    pub group_roles: Vec<DetailGroupRole>,
}

/// One group role entry of a response.
pub struct GroupRole {
    pub group_id: String,
    pub role_id: String,
}

/// The body of a user create request.
pub struct UserCreateRequest {
    pub first_name: Option<String>,
    pub last_name: Option<String>,
    pub email: Option<String>,
    pub is_active: bool,
    pub password: String,
    pub user_name: String,
    pub address: Option<String>,
    pub group_roles: Option<Vec<GroupRole>>,
}

/// The body of a user create response.
pub struct UserCreateResponse {
    pub id: String,
    pub user_name: String,
    pub is_active: Option<bool>,
    pub group_roles: Vec<DetailGroupRole>,
    pub user_profile: Option<DetailUserProfile>,
}

/// The body of a user update request.
pub struct UserUpdateRequest {
    pub first_name: Option<String>,
    pub last_name: Option<String>,
    pub email: Option<String>,
    pub is_active: bool,
    pub password: String,
    pub user_name: String,
    pub address: Option<String>,
    pub group_roles: Option<Vec<GroupRole>>,
}

/// The body of a user update response.
pub struct UserUpdateResponse {
    pub id: String,
    pub user_name: String,
    pub is_active: bool,
    pub group_roles: Vec<DetailGroupRole>,
    pub user_profile: Option<DetailUserProfile>,
}

/// The body of a reset password request.
pub struct ResetPasswordRequest {
    pub new_password: String,
    pub confirm_new_password: String,
}

/// The body of a reset password response.
pub struct ResetPasswordResponse {

}

/// The body of a change status request.
pub struct ChangeStatusRequest {
    pub status: bool,
}

/// The body of a add user group role request.
pub struct AddUserGroupRoleRequest {
    pub user_id: String,
    pub role_id: String,
    pub group_id: String,
}

/// The body of a add user group role response.
pub struct AddUserGroupRoleResponse {
    pub id: String,
    pub user_id: String,
    pub role_id: String,
    pub group_id: String,
}

} // verus!

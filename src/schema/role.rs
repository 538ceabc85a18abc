//! Request and response bodies of the role endpoints.

use vstd::prelude::*;

verus! {

/// One role detail user entry of a response.
pub struct RoleDetailUser {
    pub id: String,
    pub user_name: String,
}

/// One detail role pagination entry of a response.
pub struct DetailRolePagination {
    pub id: String,
    pub role_name: String,
    pub description: Option<String>,
    pub is_active: Option<bool>,
    pub created_by: Option<RoleDetailUser>,
    pub updated_by: Option<RoleDetailUser>,
    pub created_date: Option<String>,
    pub updated_date: Option<String>,
}

/// The body of a role all response.
pub struct RoleAllResponse {
    pub id: String,
    pub role_name: String,
    pub description: Option<String>,
    pub is_active: Option<bool>,
    pub created_date: Option<String>,
    pub updated_date: Option<String>,
    pub created_by: Option<RoleDetailUser>,
    pub updated_by: Option<RoleDetailUser>,
}

/// The body of a role dropdown response.
pub struct RoleDropdownResponse {
    pub id: String,
    pub role_name: String,
}

/// The body of a role detail success response.
pub struct RoleDetailSuccessResponse {
    pub id: String,
    pub role_name: String,
    pub description: Option<String>,
    pub is_active: Option<bool>,
    pub created_date: Option<String>,
    pub updated_date: Option<String>,
    pub created_by: Option<RoleDetailUser>,
    pub updated_by: Option<RoleDetailUser>,
}

/// The body of a role create request.
pub struct RoleCreateRequest {
    pub role_name: String,
    pub description: Option<String>,
    pub is_active: Option<bool>,
}

/// The body of a role create response.
pub struct RoleCreateResponse {
    pub id: String,
    pub role_name: String,
    pub description: Option<String>,
    pub is_active: Option<bool>,
}

/// The body of a role update request.
pub struct RoleUpdateRequest {
    pub role_name: String,
    pub description: Option<String>,
    pub is_active: Option<bool>,
}

/// The body of a role update response.
pub struct RoleUpdateResponse {
    pub id: String,
    pub role_name: String,
    pub description: Option<String>,
    pub is_active: Option<bool>,
}

} // verus!

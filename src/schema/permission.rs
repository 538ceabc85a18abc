//! Request and response bodies of the permission endpoints.

use vstd::prelude::*;

verus! {

/// One detail user permission entry of a response.
pub struct DetailUserPermission {
    pub id: String,
    pub user_name: String,
}

/// One detail permission entry of a response.
pub struct DetailPermission {
    pub id: String,
    pub permission_name: String,
    pub description: String,
    pub is_user: bool,
    pub is_role: bool,
    pub is_group: bool,
    pub created_date: String,
    pub updated_date: String,
    pub created_by: Option<DetailUserPermission>,
    pub updated_by: Option<DetailUserPermission>,
}

/// The body of a permission all response.
pub struct PermissionAllResponse {
    pub id: String,
    pub permission_name: String,
    pub description: String,
    pub is_user: bool,
    pub is_role: bool,
    pub is_group: bool,
    pub created_date: String,
    pub updated_date: String,
}

/// The body of a permission dropdown response.
pub struct PermissionDropdownResponse {

}

/// One permission attribute list entry of a response.
pub struct PermissionAttributeList {
    pub id: String,
    pub name: String,
    pub description: String,
}

/// The body of a permission detail response.
pub struct PermissionDetailResponse {
    pub id: String,
    pub permission_name: String,
    pub description: String,
    pub is_user: bool,
    pub is_role: bool,
    pub is_group: bool,
    pub created_date: String,
    pub updated_date: String,
    pub created_by: Option<DetailUserPermission>,
    pub updated_by: Option<DetailUserPermission>,
    pub permission_attribute_ids: Vec<PermissionAttributeList>,
}

/// The body of a permission create request.
pub struct PermissionCreateRequest {
    pub permission_name: String,
    pub description: Option<String>,
    pub is_user: bool,
    pub is_role: bool,
    pub is_group: bool,
    pub permission_attribute_ids: Vec<String>,
}

/// The body of a permission create response.
pub struct PermissionCreateResponse {
    pub id: String,
    pub permission_name: String,
    pub description: Option<String>,
    pub is_user: bool,
    pub is_role: bool,
    pub is_group: bool,
}

/// The body of a permission update request.
pub struct PermissionUpdateRequest {
    pub permission_name: String,
    pub description: String,
    pub is_user: bool,
    pub is_role: bool,
    pub is_group: bool,
    pub permission_attribute_ids: Vec<String>,
}

/// The body of a permission update response.
pub struct PermissionUpdateResponse {
    pub id: String,
    pub permission_name: String,
    pub description: String,
    pub is_user: bool,
    pub is_role: bool,
    pub is_group: bool,
}

} // verus!

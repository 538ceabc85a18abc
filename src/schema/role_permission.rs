//! Request and response bodies of the role permission endpoints.

use vstd::prelude::*;

verus! {

/// One detail role role permission entry of a response.
pub struct DetailRoleRolePermission {
    pub id: String,
    pub role_name: String,
}

/// One detail permission role permission entry of a response.
pub struct DetailPermissionRolePermission {
    pub id: String,
    pub permission_name: String,
}

/// One detail permission attribute role permission entry of a response.
pub struct DetailPermissionAttributeRolePermission {
    pub id: String,
    pub name: String,
}

/// One detail role permission entry of a response.
pub struct DetailRolePermission {
    pub role: DetailRoleRolePermission,
    pub permission: DetailPermissionRolePermission,
    pub permission_attribute: DetailPermissionAttributeRolePermission,
}

/// The body of a role permission create request.
pub struct RolePermissionCreateRequest {
    pub role_id: String,
    pub permission_id: String,
    pub attribute_id: String,
}

/// The body of a role permission create response.
pub struct RolePermissionCreateResponse {
    pub role_id: String,
    pub permission_id: String,
    pub attribute_id: String,
}

} // verus!

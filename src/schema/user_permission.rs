//! Request and response bodies of the user permission endpoints.

use vstd::prelude::*;

verus! {

/// One detail user user permission entry of a response.
pub struct DetailUserUserPermission {
    pub id: String,
    pub user_name: String,
}

/// One detail permission user permission entry of a response.
pub struct DetailPermissionUserPermission {
    pub id: String,
    pub permission_name: String,
}

/// One detail permission attribute user permission entry of a response.
pub struct DetailPermissionAttributeUserPermission {
    pub id: String,
    pub name: String,
}

/// The body of a detail user permission response.
pub struct DetailUserPermissionResponse {
    pub user: DetailUserUserPermission,
    pub permission: DetailPermissionUserPermission,
    pub permission_attribute: DetailPermissionAttributeUserPermission,
}

/// The body of a user permission create request.
pub struct UserPermissionCreateRequest {
    pub user_id: String,
    pub permission_id: String,
    pub attribute_id: String,
}

/// The body of a user permission create response.
pub struct UserPermissionCreateResponse {
    pub user_id: String,
    pub permission_id: String,
    pub attribute_id: String,
}

} // verus!

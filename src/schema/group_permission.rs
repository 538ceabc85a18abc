//! Request and response bodies of the group permission endpoints.

use vstd::prelude::*;

verus! {

/// One detail group group permission entry of a response.
pub struct DetailGroupGroupPermission {
    pub id: String,
    pub group_name: String,
}

/// One detail permission group permission entry of a response.
pub struct DetailPermissionGroupPermission {
    pub id: String,
    pub permission_name: String,
}

/// One detail permission attribute group permission entry of a response.
pub struct DetailPermissionAttributeGroupPermission {
    pub id: String,
    pub name: String,
}

/// One detail group permission entry of a response.
pub struct DetailGroupPermission {
    pub group: DetailGroupGroupPermission,
    pub permission: DetailPermissionGroupPermission,
    pub permission_attribute: DetailPermissionAttributeGroupPermission,
}

/// The body of a group permission create request.
pub struct GroupPermissionCreateRequest {
    pub group_id: String,
    pub permission_id: String,
    pub attribute_id: String,
}

/// The body of a group permission create response.
pub struct GroupPermissionCreateResponse {
    pub group_id: String,
    pub permission_id: String,
    pub attribute_id: String,
}

} // verus!

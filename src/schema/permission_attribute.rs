//! Request and response bodies of the permission attribute endpoints.

use vstd::prelude::*;

verus! {

/// One detail permission attribute entry of a response.
pub struct DetailPermissionAttribute {
    pub id: String,
    pub name: String,
    pub description: Option<String>,
}

/// The body of a create permission attribute request.
pub struct CreatePermissionAttributeRequest {
    pub name: String,
    pub description: Option<String>,
}

/// The body of a update permission attribute request.
pub struct UpdatePermissionAttributeRequest {
    pub name: String,
    pub description: Option<String>,
}

} // verus!

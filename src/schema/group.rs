//! Request and response bodies of the group endpoints.

use vstd::prelude::*;

verus! {

/// One group detail user entry of a response.
pub struct GroupDetailUser {
    pub id: String,
    pub user_name: String,
}

/// One detail group pagination entry of a response.
pub struct DetailGroupPagination {
    pub id: String,
    pub group_name: String,
    pub description: Option<String>,
    pub is_active: Option<bool>,
    pub created_by: Option<GroupDetailUser>,
    pub updated_by: Option<GroupDetailUser>,
    pub created_date: Option<String>,
    pub updated_date: Option<String>,
}

/// The body of a group all response.
pub struct GroupAllResponse {
    pub id: String,
    pub group_name: String,
    pub description: Option<String>,
    pub is_active: Option<bool>,
    pub created_date: Option<String>,
    pub updated_date: Option<String>,
    pub created_by: Option<GroupDetailUser>,
    pub updated_by: Option<GroupDetailUser>,
}

/// The body of a group dropdown response.
pub struct GroupDropdownResponse {
    pub id: String,
    pub group_name: String,
}

/// The body of a group detail success response.
pub struct GroupDetailSuccessResponse {
    pub id: String,
    pub group_name: String,
    pub description: Option<String>,
    pub is_active: Option<bool>,
    pub created_date: Option<String>,
    pub updated_date: Option<String>,
    pub created_by: Option<GroupDetailUser>,
    pub updated_by: Option<GroupDetailUser>,
}

/// The body of a group create request.
pub struct GroupCreateRequest {
    pub group_name: String,
    pub description: Option<String>,
    pub is_active: Option<bool>,
}

/// The body of a group create response.
pub struct GroupCreateResponse {
    pub id: String,
    pub group_name: String,
    pub description: Option<String>,
    pub is_active: Option<bool>,
}

/// The body of a group update request.
pub struct GroupUpdateRequest {
    pub group_name: String,
    pub description: Option<String>,
    pub is_active: Option<bool>,
}

/// The body of a group update response.
pub struct GroupUpdateResponse {
    pub id: String,
    pub group_name: String,
    pub description: Option<String>,
    pub is_active: Option<bool>,
}

} // verus!

//! Stored records. Identifiers are 128-bit values; times are Unix seconds.

use vstd::prelude::*;

verus! {

/// The table that holds [`User`] rows.
pub const USER_TABLE: &'static str = "public.user";

/// A login identity; `deleted_date` set means soft-deleted.
pub struct User {
    pub id: u128,
    pub user_name: String,
    pub password: String,
    pub is_active: Option<bool>,
    pub is_2faenabled: Option<bool>,
    pub created_by: Option<u128>,
    pub updated_by: Option<u128>,
    pub created_date: Option<i64>,
    pub updated_date: Option<i64>,
    pub deleted_date: Option<i64>,
}

/// The table that holds [`UserProfile`] rows.
pub const USER_PROFILE_TABLE: &'static str = "public.user_profile";

/// The non-authentication attributes of a user (same id).
pub struct UserProfile {
    pub id: u128,
    pub user_id: u128,
    pub first_name: Option<String>,
    pub last_name: Option<String>,
    pub address: Option<String>,
    pub email: Option<String>,
}

/// The table that holds [`Role`] rows.
pub const ROLE_TABLE: &'static str = "public.role";

/// A named, soft-deletable subject that can hold grants.
pub struct Role {
    pub id: u128,
    pub role_name: String,
    pub description: Option<String>,
    pub is_active: Option<bool>,
    pub created_by: Option<u128>,
    pub updated_by: Option<u128>,
    pub created_date: Option<i64>,
    pub updated_date: Option<i64>,
    pub deleted_date: Option<i64>,
}

/// The table that holds [`Group`] rows.
pub const GROUP_TABLE: &'static str = "public.group";

/// A named, soft-deletable subject that can hold grants.
pub struct Group {
    pub id: u128,
    pub group_name: String,
    pub description: Option<String>,
    pub is_active: Option<bool>,
    pub created_by: Option<u128>,
    pub updated_by: Option<u128>,
    pub created_date: Option<i64>,
    pub updated_date: Option<i64>,
    pub deleted_date: Option<i64>,
}

/// The table that holds [`Permission`] rows.
pub const PERMISSION_TABLE: &'static str = "public.permission";

/// A named capability, with the subject kinds that may hold it.
pub struct Permission {
    pub id: u128,
    pub permission_name: String,
    pub is_user: Option<bool>,
    pub is_role: Option<bool>,
    pub is_group: Option<bool>,
    pub description: Option<String>,
    pub created_by: Option<u128>,
    pub updated_by: Option<u128>,
    pub created_date: Option<i64>,
    pub updated_date: Option<i64>,
}

/// The table that holds [`PermissionAttribute`] rows.
pub const PERMISSION_ATTRIBUTE_TABLE: &'static str = "public.permission_attribute";

/// A named scoping dimension of a permission.
pub struct PermissionAttribute {
    pub id: u128,
    pub name: String,
    pub description: Option<String>,
    pub created_date: Option<i64>,
    pub updated_date: Option<i64>,
}

/// The table that holds [`PermissionAttributeList`] rows.
pub const PERMISSION_ATTRIBUTE_LIST_TABLE: &'static str = "public.permission_attribute_list";

/// One association of a permission with an attribute.
pub struct PermissionAttributeList {
    pub permission_id: u128,
    pub attribute_id: u128,
}

/// The table that holds [`UserGroupRoles`] rows.
pub const USER_GROUP_ROLES_TABLE: &'static str = "public.user_group_roles";

/// One `(role, group)` pair assigned to a user.
pub struct UserGroupRoles {
    pub id: u128,
    pub user_id: Option<u128>,
    pub group_id: Option<u128>,
    pub role_id: Option<u128>,
}

/// The table that holds [`UserPermission`] rows.
pub const USER_PERMISSION_TABLE: &'static str = "public.user_permission";

/// A grant of a permission, scoped by an attribute, to a user.
pub struct UserPermission {
    pub user_id: u128,
    pub permission_id: u128,
    pub attribute_id: u128,
    pub created_by: Option<u128>,
    pub updated_by: Option<u128>,
    pub created_date: Option<i64>,
    pub updated_date: Option<i64>,
}

/// The table that holds [`RolePermission`] rows.
pub const ROLE_PERMISSION_TABLE: &'static str = "public.role_permissions";

/// A grant of a permission, scoped by an attribute, to a role.
pub struct RolePermission {
    pub role_id: u128,
    pub permission_id: u128,
    pub attribute_id: u128,
    pub created_by: Option<u128>,
    pub updated_by: Option<u128>,
    pub created_date: Option<i64>,
    pub updated_date: Option<i64>,
}

/// The table that holds [`GroupPermission`] rows.
pub const GROUP_PERMISSION_TABLE: &'static str = "public.group_permissions";

/// A grant of a permission, scoped by an attribute, to a group.
pub struct GroupPermission {
    pub group_id: u128,
    pub permission_id: u128,
    pub attribute_id: u128,
    pub created_by: Option<u128>,
    pub updated_by: Option<u128>,
    pub created_date: Option<i64>,
    pub updated_date: Option<i64>,
}

} // verus!

//! The bodies that the HTTP layer reads and writes.

pub mod auth;
pub mod group;
pub mod group_permission;
pub mod permission;
pub mod permission_attribute;
pub mod role;
pub mod role_permission;
pub mod user;
pub mod user_permission;

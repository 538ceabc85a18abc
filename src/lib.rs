//! Authentication tokens, session bookkeeping and the permission-grant model
//! of a multi-tenant back office.

pub mod auth;
pub mod fields;
pub mod grant;
pub mod ident;
pub mod model;
pub mod query;
pub mod schema;
pub mod security;
pub mod session;
pub mod settings;
pub mod users;

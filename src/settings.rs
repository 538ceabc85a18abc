//! Process configuration, read once at start and handed to each component.

use vstd::prelude::*;

verus! {

/// Connection strings, the token secret and lifetimes, and where to listen.
pub struct Config {
    /// Where the values were read from: `file` or `server`.
    pub env: String,
    pub host: String,
    pub port: u16,
    pub prefix: Option<String>,
    pub database_url: String,
    /// The shared secret that signs and checks both token kinds.
    pub jwt_secret: String,
    /// Access-token lifetime in minutes.
    pub jwt_exp: u16,
    /// Refresh-token lifetime in minutes.
    pub jwt_refresh_exp: u16,
    pub redis_url: String,
}

} // verus!

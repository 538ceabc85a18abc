//! Request and response bodies of the auth endpoints.

use vstd::prelude::*;

verus! {

/// The body of a login request.
pub struct LoginRequest {
    pub user_name: String,
    pub password: String,
}

/// The body of a login response.
pub struct LoginResponse {
    pub exp: String,
    pub exp_in: i32,
    pub exp_refresh_token: String,
    pub refresh_token: String,
    pub token: String,
    pub token_type: String,
}

/// The body of a refresh token request.
pub struct RefreshTokenRequest {
    pub refresh_token: String,
}

/// The body of a refresh token response.
pub struct RefreshTokenResponse {
    pub exp: String,
    pub exp_in: i32,
    pub exp_refresh_token: String,
    pub refresh_token: String,
    pub token: String,
    pub token_type: String,
}

} // verus!

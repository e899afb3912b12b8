//! The shapes that the authentication endpoints receive and send.

use crate::auth::service::{AuthError, AuthResult, LoginData, RegisterData};
use vstd::prelude::*;

verus! {

/// Body of a registration request.
#[derive(Debug, PartialEq, Eq)]
pub struct RegisterRequest {
    pub username: String,
    pub email: String,
    pub password: String,
    pub role: Option<String>,
}

/// Body of a login request.
#[derive(Debug, PartialEq, Eq)]
pub struct LoginRequest {
    pub email: String,
    pub password: String,
}

/// Body of a successful answer.
#[derive(Debug, PartialEq, Eq)]
pub struct AuthResponse {
    pub user_id: String,
    pub username: String,
    pub email: String,
    pub role: String,
    pub token: String,
}

/// Body of a failed answer.
#[derive(Debug, PartialEq, Eq)]
pub struct ErrorResponse {
    pub error: String,
    pub details: Option<String>,
}

impl RegisterRequest {
    /// Hands the request to the service as it came.
    pub fn into_data(self) -> (r: RegisterData)
        ensures
            r.username == self.username,
            r.email == self.email,
            r.password == self.password,
            r.role == self.role,
    {
        RegisterData {
            username: self.username,
            email: self.email,
            password: self.password,
            role: self.role,
        }
    }
}

impl LoginRequest {
    /// Hands the request to the service as it came.
    pub fn into_data(self) -> (r: LoginData)
        ensures
            r.email == self.email,
            r.password == self.password,
    {
        LoginData { email: self.email, password: self.password }
    }
}

/// The answer for a successful registration or login: the result with the
/// user's identifier written out as text.
pub fn to_response(result: AuthResult) -> (r: AuthResponse)
    ensures
        r.user_id@ == result.user_id.text(),
        r.username == result.username,
        r.email == result.email,
        r.role == result.role,
        r.token == result.token,
{
    AuthResponse {
        user_id: result.user_id.to_text(),
        username: result.username,
        email: result.email,
        role: result.role,
        token: result.token,
    }
}

/// The status and body that answer a failed registration or login.
pub fn handle_error(error: &AuthError) -> (r: (u16, ErrorResponse))
    ensures
        r.0 == error.status(),
        r.1.error@ == error.sentence(),
        r.1.details is Some == error.detail() is Some,
        r.1.details is Some ==> r.1.details->0@ == error.detail()->0,
{
    let status = error.status_code();
    let message = error.message();
    let details = error.details();
    (status, ErrorResponse { error: message, details })
}

} // verus!

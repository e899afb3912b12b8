//! The rules of registration and login that do not need the database: which
//! input is acceptable, which role a new user gets, and how errors read.

use crate::auth::jwt::Role;
use crate::ident::UserId;
use crate::text::lowercase;
use vstd::prelude::*;
use vstd::string::*;

verus! {

/// What a new user submits.
#[derive(Debug)]
pub struct RegisterData {
    pub username: String,
    pub email: String,
    pub password: String,
    pub role: Option<String>,
}

/// What a returning user submits.
#[derive(Debug)]
pub struct LoginData {
    pub email: String,
    pub password: String,
}

/// What a successful registration or login yields.
#[derive(Debug)]
pub struct AuthResult {
    pub user_id: UserId,
    pub username: String,
    pub email: String,
    pub role: String,
    pub token: String,
}

/// Service errors.
#[derive(Debug, PartialEq, Eq)]
pub enum AuthError {
    InvalidInput(String),
    AlreadyExists(String),
    InvalidCredentials,
    DatabaseError(String),
    TokenError,
    InternalError(String),
}

impl AuthError {
    /// The HTTP status that answers the error.
    pub open spec fn status(self) -> u16 {
        match self {
            AuthError::InvalidInput(_) => 400,
            AuthError::AlreadyExists(_) => 409,
            AuthError::InvalidCredentials => 401,
            AuthError::DatabaseError(_) => 500,
            AuthError::TokenError => 500,
            AuthError::InternalError(_) => 500,
        }
    }

    /// The message shown to the caller.
    pub open spec fn sentence(self) -> Seq<char> {
        match self {
            AuthError::InvalidInput(msg) => msg@,
            AuthError::AlreadyExists(msg) => msg@,
            AuthError::InvalidCredentials => "Invalid email or password"@,
            AuthError::DatabaseError(msg) => "Database error: "@ + msg@,
            AuthError::TokenError => "Failed to generate auth token"@,
            AuthError::InternalError(msg) => msg@,
        }
    }

    /// The extra detail attached to the response, present only for database
    /// failures.
    pub open spec fn detail(self) -> Option<Seq<char>> {
        match self {
            AuthError::DatabaseError(d) => Some("Database operation failed: "@ + d@),
            _ => None,
        }
    }

    /// The HTTP status that answers the error.
    pub fn status_code(&self) -> (r: u16)
        ensures
            r == self.status(),
    {
        match self {
            AuthError::InvalidInput(_) => 400,
            AuthError::AlreadyExists(_) => 409,
            AuthError::InvalidCredentials => 401,
            AuthError::DatabaseError(_) => 500,
            AuthError::TokenError => 500,
            AuthError::InternalError(_) => 500,
        }
    }

    /// The message shown to the caller.
    pub fn message(&self) -> (r: String)
        ensures
            r@ == self.sentence(),
    {
        match self {
            AuthError::InvalidInput(msg) => msg.clone(),
            AuthError::AlreadyExists(msg) => msg.clone(),
            AuthError::InvalidCredentials => String::from_str("Invalid email or password"),
            AuthError::DatabaseError(msg) => {
                let mut out = String::from_str("Database error: ");
                out.append(msg.as_str());
                out
            },
            AuthError::TokenError => String::from_str("Failed to generate auth token"),
            AuthError::InternalError(msg) => msg.clone(),
        }
    }

    /// The extra detail attached to the response.
    pub fn details(&self) -> (r: Option<String>)
        ensures
            r is Some == self.detail() is Some,
            r is Some ==> r->0@ == self.detail()->0,
    {
        match self {
            AuthError::DatabaseError(d) => {
                let mut out = String::from_str("Database operation failed: ");
                out.append(d.as_str());
                Some(out)
            },
            _ => None,
        }
    }
}

impl RegisterData {
    /// Whether all three required fields are filled in.
    pub open spec fn complete(&self) -> bool {
        self.username@.len() > 0 && self.email@.len() > 0 && self.password@.len() > 0
    }

    /// The role name that the registration asks for: the one given, or
    /// `user`.
    pub open spec fn role_name(&self) -> Seq<char> {
        match self.role {
            Some(r) => r@,
            None => "user"@,
        }
    }

    /// Rejects a registration with an empty username, email or password.
    pub fn check_required(&self) -> (r: Result<(), AuthError>)
        ensures
            r is Ok == self.complete(),
            r is Err ==> r->Err_0 is InvalidInput && r->Err_0->InvalidInput_0@
                == "Username, email, and password are required"@,
    {
        if char_len_is_zero(&self.username) || char_len_is_zero(&self.email) || char_len_is_zero(
            &self.password,
        ) {
            Err(
                AuthError::InvalidInput(
                    String::from_str("Username, email, and password are required"),
                ),
            )
        } else {
            Ok(())
        }
    }

    /// The role of the new user with its name as stored, or the complaint
    /// about a name that is no role.
    pub fn requested_role(&self) -> (r: Result<(String, Role), AuthError>)
        ensures
            r is Ok == Role::named_by(lowercase(self.role_name()), self.role_name()) is Ok,
            r is Ok ==> {
                &&& r->Ok_0.0@ == self.role_name()
                &&& r->Ok_0.1 == Role::named_by(lowercase(self.role_name()), self.role_name())->Ok_0
            },
            r is Err ==> r->Err_0 is InvalidInput && r->Err_0->InvalidInput_0@ == Role::named_by(
                lowercase(self.role_name()),
                self.role_name(),
            )->Err_0,
    {
        let name = match &self.role {
            Some(r) => r.clone(),
            None => String::from_str("user"),
        };
        match Role::from_str(name.as_str()) {
            Ok(role) => Ok((name, role)),
            Err(message) => Err(AuthError::InvalidInput(message)),
        }
    }
}

fn char_len_is_zero(s: &String) -> (r: bool)
    ensures
        r == (s@.len() == 0),
{
    s.as_str().unicode_len() == 0
}

impl LoginData {
    /// The role a user logs in with. Roles are not stored with the account,
    /// so every login is an ordinary user's.
    pub fn login_role() -> (r: (String, Role))
        ensures
            r.0@ == "user"@,
            r.1 == Role::User,
    {
        (String::from_str("user"), Role::User)
    }
}

} // verus!

//! Roles, token claims and the errors of token handling. Signing and
//! checking a token is done where the signing key lives; what goes into a
//! token is decided here.

use crate::ident::UserId;
use crate::text::{lowercase, same_text, to_lowercase};
use vstd::prelude::*;
use vstd::string::*;

verus! {

/// User roles for role-based access control.
#[derive(Clone, Copy, Debug, PartialEq, Eq, Structural)]
pub enum Role {
    User,
    Author,
    Admin,
    Analyst,
}

/// How long a token stays valid after it was issued, in seconds.
pub const TOKEN_LIFETIME_SECONDS: i64 = 86400;

impl Role {
    /// The lowercase name of the role.
    pub open spec fn name(self) -> Seq<char> {
        match self {
            Role::User => "user"@,
            Role::Author => "author"@,
            Role::Admin => "admin"@,
            Role::Analyst => "analyst"@,
        }
    }

    /// The role that a lowercased text names, and the complaint about the
    /// text as first written when it names none.
    pub open spec fn named_by(lowered: Seq<char>, as_written: Seq<char>) -> Result<Role, Seq<char>> {
        if lowered == "user"@ {
            Ok(Role::User)
        } else if lowered == "author"@ {
            Ok(Role::Author)
        } else if lowered == "admin"@ {
            Ok(Role::Admin)
        } else if lowered == "analyst"@ {
            Ok(Role::Analyst)
        } else {
            Err("Invalid role: "@ + as_written)
        }
    }

    /// Picks the role for a text that has already been lowercased. `as_written`
    /// is the text before lowercasing and only appears in the error.
    pub fn from_lowered(lowered: &str, as_written: &str) -> (r: Result<Role, String>)
        ensures
            r is Ok == Role::named_by(lowered@, as_written@) is Ok,
            r is Ok ==> r->Ok_0 == Role::named_by(lowered@, as_written@)->Ok_0,
            r is Err ==> r->Err_0@ == Role::named_by(lowered@, as_written@)->Err_0,
    {
        if same_text(lowered, "user") {
            Ok(Role::User)
        } else if same_text(lowered, "author") {
            Ok(Role::Author)
        } else if same_text(lowered, "admin") {
            Ok(Role::Admin)
        } else if same_text(lowered, "analyst") {
            Ok(Role::Analyst)
        } else {
            let mut message = String::from_str("Invalid role: ");
            message.append(as_written);
            Err(message)
        }
    }

    /// Reads a role from its name, ignoring case.
    pub fn from_str(role: &str) -> (r: Result<Role, String>)
        ensures
            r is Ok == Role::named_by(lowercase(role@), role@) is Ok,
            r is Ok ==> r->Ok_0 == Role::named_by(lowercase(role@), role@)->Ok_0,
            r is Err ==> r->Err_0@ == Role::named_by(lowercase(role@), role@)->Err_0,
    {
        let lowered = to_lowercase(role);
        Role::from_lowered(lowered.as_str(), role)
    }

    /// Whether a user with this role may pass where `required` is asked
    /// for: administrators pass everywhere, everyone else only where their
    /// own role is asked for.
    pub fn allows(self, required: Role) -> (r: bool)
        ensures
            r == (self == Role::Admin || self == required),
    {
        self == Role::Admin || self == required
    }

    /// The lowercase name of the role.
    pub fn as_str(&self) -> (r: &'static str)
        ensures
            r@ == self.name(),
    {
        match self {
            Role::User => "user",
            Role::Author => "author",
            Role::Admin => "admin",
            Role::Analyst => "analyst",
        }
    }
}

/// Distinct roles have distinct names, so a role can be read back from
/// [`Role::as_str`].
pub proof fn law_role_names_differ(a: Role, b: Role)
    ensures
        a.name() == b.name() ==> a == b,
        Role::named_by(a.name(), a.name()) == Ok::<Role, Seq<char>>(a),
{
    reveal_strlit("user");
    reveal_strlit("author");
    reveal_strlit("admin");
    reveal_strlit("analyst");
    assert("user"@.len() == 4 && "author"@.len() == 6 && "admin"@.len() == 5 && "analyst"@.len()
        == 7);
    assert("author"@[1] == 'u' && "admin"@[1] == 'd' && "analyst"@[1] == 'n' && "user"@[1] == 's');
}

/// The claims carried by a token.
#[derive(Debug, PartialEq, Eq)]
pub struct Claims {
    /// Subject: the user's identifier as text.
    pub sub: String,
    /// The user's role.
    pub role: Role,
    /// Expiration time, seconds since the epoch.
    pub exp: usize,
    /// Issued at, seconds since the epoch.
    pub iat: usize,
}

impl Claims {
    /// Whether claims can be issued at `now`: both the issue time and the
    /// expiry must be representable.
    pub open spec fn issuable(now: i64) -> bool {
        0 <= now && now + TOKEN_LIFETIME_SECONDS <= usize::MAX
    }

    /// The claims for a user and role at time `now` (seconds since the
    /// epoch): issued now, expiring a day later.
    pub fn issue(user_id: &UserId, role: Role, now: i64) -> (r: Result<Claims, JwtError>)
        ensures
            r is Ok == Claims::issuable(now),
            r is Ok ==> {
                &&& r->Ok_0.sub@ == user_id.text()
                &&& r->Ok_0.role == role
                &&& r->Ok_0.iat == now
                &&& r->Ok_0.exp == now + TOKEN_LIFETIME_SECONDS
            },
            r is Err ==> r->Err_0 == JwtError::TokenCreation,
    {
        if now < 0 {
            return Err(JwtError::TokenCreation);
        }
        let expiry: u128 = now as u128 + 86400u128;
        if expiry > usize::MAX as u128 {
            return Err(JwtError::TokenCreation);
        }
        Ok(Claims { sub: user_id.to_text(), role, exp: expiry as usize, iat: now as usize })
    }
}

/// What can go wrong with a token.
#[derive(Clone, Copy, Debug, PartialEq, Eq, Structural)]
pub enum JwtError {
    MissingSecret,
    TokenCreation,
    InvalidToken,
}

impl JwtError {
    /// The sentence that describes the error.
    pub open spec fn sentence(self) -> Seq<char> {
        match self {
            JwtError::MissingSecret => "JWT secret is missing or not set"@,
            JwtError::TokenCreation => "Failed to create JWT token"@,
            JwtError::InvalidToken => "Invalid or expired JWT token"@,
        }
    }

    /// The HTTP status that answers the error.
    pub open spec fn status(self) -> u16 {
        match self {
            JwtError::MissingSecret => 500,
            JwtError::TokenCreation => 500,
            JwtError::InvalidToken => 401,
        }
    }

    /// The sentence that describes the error.
    pub fn message(&self) -> (r: String)
        ensures
            r@ == self.sentence(),
    {
        match self {
            JwtError::MissingSecret => String::from_str("JWT secret is missing or not set"),
            JwtError::TokenCreation => String::from_str("Failed to create JWT token"),
            JwtError::InvalidToken => String::from_str("Invalid or expired JWT token"),
        }
    }

    /// The HTTP status that answers the error: 401 for a bad token, 500 for
    /// the two failures on the server's side.
    pub fn status_code(&self) -> (r: u16)
        ensures
            r == self.status(),
    {
        match self {
            JwtError::MissingSecret => 500,
            JwtError::TokenCreation => 500,
            JwtError::InvalidToken => 401,
        }
    }
}

} // verus!

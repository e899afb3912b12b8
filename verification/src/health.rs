//! What the health endpoints say.

use crate::auth::jwt::Role;
use crate::ident::UserId;
use vstd::prelude::*;
use vstd::string::*;

verus! {

/// Body of a health answer.
#[derive(Debug, PartialEq, Eq)]
pub struct HealthResponse {
    pub status: String,
    pub message: String,
}

/// The name of a role as a health message shows it.
pub open spec fn role_label(role: Role) -> Seq<char> {
    match role {
        Role::User => "User"@,
        Role::Author => "Author"@,
        Role::Admin => "Admin"@,
        Role::Analyst => "Analyst"@,
    }
}

/// The message of the protected health check.
pub open spec fn protected_message(user: UserId, role: Role, database_ok: bool) -> Seq<char> {
    "Server is running. Authenticated as user: "@ + user.text() + " with role: "@ + role_label(role)
        + ". Database status: "@ + if database_ok {
        "ok"@
    } else {
        "error"@
    }
}

/// The answer of the open health check.
pub fn health_check() -> (r: HealthResponse)
    ensures
        r.status@ == "ok"@,
        r.message@ == "Server is running"@,
{
    HealthResponse {
        status: String::from_str("ok"),
        message: String::from_str("Server is running"),
    }
}

/// The answer of the protected health check: the server is up whether or
/// not the database is, and the message says who asked and how the
/// database fares.
pub fn protected_health_check(user: UserId, role: Role, database_ok: bool) -> (r: HealthResponse)
    ensures
        r.status@ == "ok"@,
        r.message@ == protected_message(user, role, database_ok),
{
    let mut message = String::from_str("Server is running. Authenticated as user: ");
    let id = user.to_text();
    message.append(id.as_str());
    message.append(" with role: ");
    let label = match role {
        Role::User => "User",
        Role::Author => "Author",
        Role::Admin => "Admin",
        Role::Analyst => "Analyst",
    };
    message.append(label);
    message.append(". Database status: ");
    message.append(if database_ok { "ok" } else { "error" });
    HealthResponse { status: String::from_str("ok"), message }
}

} // verus!

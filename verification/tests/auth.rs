use axum::http::StatusCode;
use blog_backend::auth::controller::{handle_error, to_response, LoginRequest, RegisterRequest};
use blog_backend::auth::jwt::{Claims, JwtError, Role, TOKEN_LIFETIME_SECONDS};
use blog_backend::auth::service::{AuthError, AuthResult, LoginData, RegisterData};
use blog_backend::ident::UserId;

#[test]
fn test_role_from_str() {
    assert_eq!(Role::from_str("user").unwrap(), Role::User);
    assert_eq!(Role::from_str("admin").unwrap(), Role::Admin);
    assert_eq!(Role::from_str("author").unwrap(), Role::Author);
    assert_eq!(Role::from_str("analyst").unwrap(), Role::Analyst);
    assert!(Role::from_str("invalid").is_err());
}

#[test]
fn test_role_as_str() {
    assert_eq!(Role::User.as_str(), "user");
    assert_eq!(Role::Admin.as_str(), "admin");
    assert_eq!(Role::Author.as_str(), "author");
    assert_eq!(Role::Analyst.as_str(), "analyst");
}

#[test]
fn test_role_case_insensitivity() {
    assert_eq!(Role::from_str("USER").unwrap(), Role::User);
    assert_eq!(Role::from_str("user").unwrap(), Role::User);
    assert_eq!(Role::from_str("User").unwrap(), Role::User);

    assert_eq!(Role::from_str("ADMIN").unwrap(), Role::Admin);
    assert_eq!(Role::from_str("admin").unwrap(), Role::Admin);
    assert_eq!(Role::from_str("Admin").unwrap(), Role::Admin);

    assert_eq!(Role::from_str("AUTHOR").unwrap(), Role::Author);
    assert_eq!(Role::from_str("ANALYST").unwrap(), Role::Analyst);
}

#[test]
fn test_jwt_error_conversion() {
    assert_eq!(
        StatusCode::from_u16(JwtError::MissingSecret.status_code()).unwrap(),
        StatusCode::INTERNAL_SERVER_ERROR
    );
    assert_eq!(
        StatusCode::from_u16(JwtError::TokenCreation.status_code()).unwrap(),
        StatusCode::INTERNAL_SERVER_ERROR
    );
    assert_eq!(
        StatusCode::from_u16(JwtError::InvalidToken.status_code()).unwrap(),
        StatusCode::UNAUTHORIZED
    );
}

#[test]
fn role_error_names_the_text_as_written() {
    assert_eq!(Role::from_str("Invalid").unwrap_err(), "Invalid role: Invalid");
    assert_eq!(Role::from_str("").unwrap_err(), "Invalid role: ");
}

#[test]
fn role_from_lowered_does_not_lowercase() {
    assert_eq!(Role::from_lowered("admin", "ADMIN"), Ok(Role::Admin));
    assert_eq!(
        Role::from_lowered("ADMIN", "ADMIN"),
        Err("Invalid role: ADMIN".to_string())
    );
}

#[test]
fn role_names_round_trip() {
    for role in [Role::User, Role::Admin, Role::Author, Role::Analyst] {
        assert_eq!(Role::from_str(role.as_str()), Ok(role));
    }
}

#[test]
fn jwt_error_messages() {
    assert_eq!(JwtError::MissingSecret.message(), "JWT secret is missing or not set");
    assert_eq!(JwtError::TokenCreation.message(), "Failed to create JWT token");
    assert_eq!(JwtError::InvalidToken.message(), "Invalid or expired JWT token");
}

#[test]
fn claims_are_issued_for_a_day() {
    let user = UserId { value: 0x123e4567_e89b_12d3_a456_426614174000 };
    let claims = Claims::issue(&user, Role::Author, 1_700_000_000).unwrap();
    assert_eq!(claims.sub, "123e4567-e89b-12d3-a456-426614174000");
    assert_eq!(claims.role, Role::Author);
    assert_eq!(claims.iat, 1_700_000_000);
    assert_eq!(claims.exp, 1_700_086_400);
    assert_eq!(TOKEN_LIFETIME_SECONDS, 24 * 60 * 60);
}

#[test]
fn claims_for_the_nil_user() {
    let claims = Claims::issue(&UserId { value: 0 }, Role::User, 0).unwrap();
    assert_eq!(claims.sub, "00000000-0000-0000-0000-000000000000");
    assert_eq!(claims.iat, 0);
    assert_eq!(claims.exp, 86_400);
}

#[test]
fn claims_before_the_epoch_are_refused() {
    assert_eq!(
        Claims::issue(&UserId { value: 1 }, Role::User, -1),
        Err(JwtError::TokenCreation)
    );
}

#[test]
fn auth_error_status_and_message() {
    assert_eq!(AuthError::InvalidInput("bad".into()).status_code(), 400);
    assert_eq!(AuthError::AlreadyExists("dup".into()).status_code(), 409);
    assert_eq!(AuthError::InvalidCredentials.status_code(), 401);
    assert_eq!(AuthError::DatabaseError("down".into()).status_code(), 500);
    assert_eq!(AuthError::TokenError.status_code(), 500);
    assert_eq!(AuthError::InternalError("oops".into()).status_code(), 500);

    assert_eq!(AuthError::InvalidInput("bad".into()).message(), "bad");
    assert_eq!(AuthError::AlreadyExists("dup".into()).message(), "dup");
    assert_eq!(AuthError::InvalidCredentials.message(), "Invalid email or password");
    assert_eq!(AuthError::DatabaseError("down".into()).message(), "Database error: down");
    assert_eq!(AuthError::TokenError.message(), "Failed to generate auth token");
    assert_eq!(AuthError::InternalError("oops".into()).message(), "oops");
}

#[test]
fn auth_error_details_only_for_the_database() {
    assert_eq!(
        AuthError::DatabaseError("down".into()).details(),
        Some("Database operation failed: down".to_string())
    );
    assert_eq!(AuthError::InvalidCredentials.details(), None);
    let (status, body) = handle_error(&AuthError::DatabaseError("down".into()));
    assert_eq!(status, 500);
    assert_eq!(body.error, "Database error: down");
    assert_eq!(body.details, Some("Database operation failed: down".to_string()));
    let (status, body) = handle_error(&AuthError::AlreadyExists("Email already in use".into()));
    assert_eq!(status, 409);
    assert_eq!(body.error, "Email already in use");
    assert_eq!(body.details, None);
}

fn registration(username: &str, email: &str, password: &str, role: Option<&str>) -> RegisterData {
    RegisterData {
        username: username.to_string(),
        email: email.to_string(),
        password: password.to_string(),
        role: role.map(|r| r.to_string()),
    }
}

#[test]
fn registration_needs_all_three_fields() {
    assert_eq!(registration("ann", "a@b.c", "pw", None).check_required(), Ok(()));
    let missing = AuthError::InvalidInput("Username, email, and password are required".into());
    assert_eq!(registration("", "a@b.c", "pw", None).check_required(), Err(missing));
    assert!(registration("ann", "", "pw", None).check_required().is_err());
    assert!(registration("ann", "a@b.c", "", None).check_required().is_err());
}

#[test]
fn registration_role_defaults_to_user() {
    assert_eq!(
        registration("ann", "a@b.c", "pw", None).requested_role(),
        Ok(("user".to_string(), Role::User))
    );
    assert_eq!(
        registration("ann", "a@b.c", "pw", Some("Analyst")).requested_role(),
        Ok(("Analyst".to_string(), Role::Analyst))
    );
    assert_eq!(
        registration("ann", "a@b.c", "pw", Some("king")).requested_role(),
        Err(AuthError::InvalidInput("Invalid role: king".into()))
    );
}

#[test]
fn login_is_always_as_user() {
    assert_eq!(LoginData::login_role(), ("user".to_string(), Role::User));
}

#[test]
fn requests_are_handed_on_unchanged() {
    let data = RegisterRequest {
        username: "ann".into(),
        email: "a@b.c".into(),
        password: "pw".into(),
        role: Some("admin".into()),
    }
    .into_data();
    assert_eq!(data.username, "ann");
    assert_eq!(data.email, "a@b.c");
    assert_eq!(data.password, "pw");
    assert_eq!(data.role, Some("admin".to_string()));
    let data = LoginRequest { email: "a@b.c".into(), password: "pw".into() }.into_data();
    assert_eq!(data.email, "a@b.c");
    assert_eq!(data.password, "pw");
}

#[test]
fn auth_response_spells_the_user_id() {
    let response = to_response(AuthResult {
        user_id: UserId { value: 0xa1b2c3d4_e5f6_7890_abcd_1234567890ab },
        username: "ann".into(),
        email: "a@b.c".into(),
        role: "user".into(),
        token: "t".into(),
    });
    assert_eq!(response.user_id, "a1b2c3d4-e5f6-7890-abcd-1234567890ab");
    assert_eq!(response.username, "ann");
    assert_eq!(response.email, "a@b.c");
    assert_eq!(response.role, "user");
    assert_eq!(response.token, "t");
}

#[test]
fn admins_pass_everywhere_others_by_their_own_role() {
    for required in [Role::User, Role::Author, Role::Admin, Role::Analyst] {
        assert!(Role::Admin.allows(required));
        assert!(required.allows(required));
    }
    assert!(!Role::User.allows(Role::Admin));
    assert!(!Role::Author.allows(Role::User));
    assert!(!Role::Analyst.allows(Role::Author));
}

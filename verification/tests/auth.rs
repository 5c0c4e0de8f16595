use hits_core::auth::{refresh, refresh_at, AuthService};
use hits_core::dtos::{LoginPayload, RegisterPayload};
use hits_core::error::{AppError, FieldError};
use hits_core::invitation::Invitation;
use hits_core::role::Role;
use hits_core::security::{
    generate_tokens, hash_password, verify_password, Claims, Presented, TokenType,
};
use hits_core::user::{NewUser, User};

fn account(password: &str) -> User {
    User {
        id: 3,
        study_group: None,
        telephone: None,
        roles: vec![Role::Member],
        email: "a@x.com".to_string(),
        password: hash_password(password).unwrap(),
        last_name: "Lovelace".to_string(),
        first_name: "Ada".to_string(),
        created_at: 5,
        is_deleted: false,
    }
}

fn credentials(email: &str, password: &str) -> LoginPayload {
    LoginPayload { email: email.to_string(), password: password.to_string() }
}

fn registration() -> RegisterPayload {
    RegisterPayload {
        email: "whatever@y.org".to_string(),
        password: "12345678".to_string(),
        last_name: "Lovelace".to_string(),
        first_name: "Ada".to_string(),
        study_group: Some("G-1".to_string()),
        telephone: None,
    }
}

fn invitation(expiry_date: i64) -> Invitation {
    Invitation {
        id: 9,
        email: "Invited@X.com".to_string(),
        roles: vec![Role::Initiator, Role::Expert],
        expiry_date,
    }
}

fn refresh_claims(exp: u64) -> Claims {
    Claims {
        sub: 7,
        email: "a@x.com".to_string(),
        first_name: "Ada".to_string(),
        last_name: "Lovelace".to_string(),
        exp,
        iat: 1_000,
        token_type: TokenType::Refresh,
        roles: vec![Role::Member],
    }
}

#[test]
fn account_is_looked_up_under_the_lower_case_address() {
    assert_eq!(AuthService::login_email(&credentials("Ada@X.COM", "12345678")), "ada@x.com");
}

#[test]
fn login_with_the_right_password_returns_the_account() {
    let user = account("12345678");
    assert_eq!(AuthService::login(&credentials("a@x.com", "12345678"), Some(user.clone())), Ok(user));
}

#[test]
fn login_with_the_wrong_password_is_refused() {
    assert_eq!(
        AuthService::login(&credentials("a@x.com", "87654321"), Some(account("12345678"))),
        Err(AppError::WrongCredentials)
    );
}

#[test]
fn login_to_a_missing_account_is_answered_like_a_wrong_password() {
    let unknown = AuthService::login(&credentials("a@x.com", "12345678"), None);
    let wrong = AuthService::login(&credentials("a@x.com", "87654321"), Some(account("12345678")));
    assert_eq!(unknown, Err(AppError::WrongCredentials));
    assert_eq!(unknown, wrong);
    assert_eq!(
        unknown.unwrap_err().into_response().status,
        wrong.unwrap_err().into_response().status
    );
}

#[test]
fn login_with_malformed_credentials_is_refused_first() {
    let expected = AppError::ValidationError(vec![FieldError {
        field: "password".to_string(),
        messages: vec!["Пароль должен быть не менее 8 символов".to_string()],
    }]);
    assert_eq!(AuthService::login(&credentials("a@x.com", "short"), None), Err(expected));
}

#[test]
fn login_against_a_corrupted_hash_is_refused_without_panic() {
    let mut user = account("12345678");
    user.password = "corrupted".to_string();
    assert_eq!(
        AuthService::login(&credentials("a@x.com", "12345678"), Some(user)),
        Err(AppError::WrongCredentials)
    );
}

#[test]
fn registration_takes_address_and_roles_from_the_invitation() {
    let done = AuthService::register_user(registration(), Some(invitation(1_001)), 1_000).unwrap();
    assert_eq!(done.user.email, "invited@x.com");
    assert_eq!(done.user.roles, vec![Role::Initiator, Role::Expert]);
    assert!(verify_password(&done.user.password, "12345678"));
    assert_eq!(done.user.first_name, "Ada");
    assert_eq!(done.user.last_name, "Lovelace");
    assert_eq!(done.user.study_group, Some("G-1".to_string()));
    assert_eq!(done.user.telephone, None);
    assert_eq!(done.invitation, invitation(1_000));
}

#[test]
fn registration_needs_an_open_invitation() {
    assert_eq!(
        AuthService::register_user(registration(), Some(invitation(1_000)), 1_000),
        Err(AppError::NotFound)
    );
    assert_eq!(AuthService::register_user(registration(), None, 0), Err(AppError::NotFound));
}

#[test]
fn registration_with_a_short_password_is_refused_first() {
    let payload = RegisterPayload { password: "short".to_string(), ..registration() };
    let expected = AppError::ValidationError(vec![FieldError {
        field: "password".to_string(),
        messages: vec!["Пароль должен быть не менее 8 символов".to_string()],
    }]);
    assert_eq!(AuthService::register_user(payload, None, 0), Err(expected));
}

#[test]
fn refresh_issues_a_fresh_pair_with_the_same_claims() {
    let pair = refresh_at(Presented::Decoded(refresh_claims(5_000)), 4_000).unwrap();
    assert_eq!(
        pair.access,
        Claims { exp: 4_900, iat: 4_000, token_type: TokenType::Access, ..refresh_claims(0) }
    );
    assert_eq!(pair.refresh, Claims { exp: 608_800, iat: 4_000, ..refresh_claims(0) });
}

#[test]
fn refresh_rejects_an_access_token_and_an_expired_one() {
    let access = Claims { token_type: TokenType::Access, ..refresh_claims(5_000) };
    assert_eq!(refresh_at(Presented::Decoded(access), 4_000), Err(AppError::InvalidToken));
    assert_eq!(
        refresh_at(Presented::Decoded(refresh_claims(5_000)), 5_001),
        Err(AppError::InvalidToken)
    );
    assert_eq!(
        refresh_at(Presented::Decoded(refresh_claims(5_000)), 5_000),
        Err(AppError::InvalidToken)
    );
    assert!(refresh_at(Presented::Decoded(refresh_claims(5_000)), 4_999).is_ok());
    assert_eq!(refresh_at(Presented::Absent, 0), Err(AppError::WrongCredentials));
    assert_eq!(refresh_at(Presented::Unreadable, 0), Err(AppError::InvalidToken));
}

#[test]
fn refresh_at_the_present_time_continues_a_fresh_session() {
    let session =
        generate_tokens(7, "a@x.com".to_string(), "Ada".to_string(), "L".to_string(), vec![])
            .unwrap();
    assert_eq!(
        AuthService::refresh(Presented::Decoded(session.refresh.clone())),
        Ok(session.refresh.clone())
    );
    assert_eq!(
        AuthService::refresh(Presented::Decoded(session.access.clone())),
        Err(AppError::InvalidToken)
    );
    let pair = refresh(Presented::Decoded(session.refresh.clone())).unwrap();
    assert_eq!(pair.access.sub, 7);
    assert_eq!(pair.access.roles, session.refresh.roles);
    assert_eq!(pair.access.token_type, TokenType::Access);
    assert_eq!(pair.refresh.token_type, TokenType::Refresh);
    assert!(pair.access.iat >= session.access.iat);
    assert_eq!(refresh(Presented::Decoded(refresh_claims(5_000))), Err(AppError::InvalidToken));
}

#[test]
fn registration_stores_the_hash_that_it_is_given() {
    let done = AuthService::register_user_with(
        registration(),
        Some(invitation(1_001)),
        1_000,
        Ok("$hash".to_string()),
    )
    .unwrap();
    assert_eq!(
        done.user,
        NewUser {
            email: "invited@x.com".to_string(),
            password: "$hash".to_string(),
            last_name: "Lovelace".to_string(),
            first_name: "Ada".to_string(),
            roles: vec![Role::Initiator, Role::Expert],
            study_group: Some("G-1".to_string()),
            telephone: None,
        }
    );
    assert_eq!(done.invitation, invitation(1_000));
}

#[test]
fn registration_without_a_hash_is_an_internal_error() {
    assert_eq!(
        AuthService::register_user_with(
            registration(),
            Some(invitation(1_001)),
            1_000,
            Err(AppError::InternalServerError)
        ),
        Err(AppError::InternalServerError)
    );
}

#[test]
fn registration_is_refused_before_the_hash_is_looked_at() {
    let hash = || Ok("$hash".to_string());
    assert_eq!(
        AuthService::register_user_with(registration(), Some(invitation(1_000)), 1_000, hash()),
        Err(AppError::NotFound)
    );
    assert_eq!(
        AuthService::register_user_with(registration(), None, 1_000, hash()),
        Err(AppError::NotFound)
    );
    let short = RegisterPayload { password: "short".to_string(), ..registration() };
    assert!(matches!(
        AuthService::register_user_with(short, Some(invitation(1_001)), 1_000, hash()),
        Err(AppError::ValidationError(_))
    ));
}

#[test]
fn valid_registration_on_an_open_invitation_returns_the_account() {
    for password in ["12345678", "пароль-пароль", "a very long password indeed, for once"] {
        let payload = RegisterPayload { password: password.to_string(), ..registration() };
        let done = AuthService::register_user(payload, Some(invitation(2_000)), 1_000).unwrap();
        assert_eq!(done.user.email, "invited@x.com");
        assert!(verify_password(&done.user.password, password));
    }
}

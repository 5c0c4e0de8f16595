use hits_core::error::AppError;
use hits_core::guard::{authorize, has_all_roles, has_any_role, has_role};
use hits_core::role::Role;
use hits_core::security::{Claims, Presented, TokenType};

fn holder(roles: Vec<Role>) -> Claims {
    Claims {
        sub: 1,
        email: "a@x.com".to_string(),
        first_name: "Ada".to_string(),
        last_name: "Lovelace".to_string(),
        exp: 2_000,
        iat: 1_000,
        token_type: TokenType::Access,
        roles,
    }
}

#[test]
fn role_check_passes_for_a_member_of_the_roles() {
    assert_eq!(has_role(&holder(vec![Role::Expert, Role::Admin]), Role::Admin), Ok(()));
}

#[test]
fn role_check_forbids_who_lacks_the_role() {
    assert_eq!(has_role(&holder(vec![Role::Expert]), Role::Admin), Err(AppError::Forbidden));
    assert_eq!(has_role(&holder(vec![]), Role::Admin), Err(AppError::Forbidden));
}

#[test]
fn any_role_needs_one_of_them() {
    let claims = holder(vec![Role::TeamOwner]);
    assert_eq!(has_any_role(&claims, &vec![Role::Admin, Role::TeamOwner]), Ok(()));
    assert_eq!(
        has_any_role(&claims, &vec![Role::Admin, Role::Teacher]),
        Err(AppError::Forbidden)
    );
    assert_eq!(has_any_role(&claims, &vec![]), Err(AppError::Forbidden));
}

#[test]
fn all_roles_needs_each_of_them() {
    let claims = holder(vec![Role::Admin, Role::TeamOwner]);
    assert_eq!(has_all_roles(&claims, &vec![Role::TeamOwner, Role::Admin]), Ok(()));
    assert_eq!(
        has_all_roles(&claims, &vec![Role::Admin, Role::Teacher]),
        Err(AppError::Forbidden)
    );
    assert_eq!(has_all_roles(&claims, &vec![]), Ok(()));
}

#[test]
fn request_passes_from_unauthenticated_to_authorized() {
    let admin = holder(vec![Role::Admin]);
    assert_eq!(authorize(Presented::Absent, 1_500, Role::Admin), Err(AppError::WrongCredentials));
    assert_eq!(authorize(Presented::Unreadable, 1_500, Role::Admin), Err(AppError::InvalidToken));
    assert_eq!(
        authorize(Presented::Decoded(admin.clone()), 2_001, Role::Admin),
        Err(AppError::InvalidToken)
    );
    assert_eq!(
        authorize(Presented::Decoded(admin.clone()), 1_500, Role::Expert),
        Err(AppError::Forbidden)
    );
    assert_eq!(authorize(Presented::Decoded(admin.clone()), 1_500, Role::Admin), Ok(admin));
}

#[test]
fn refresh_token_never_authorizes() {
    let mut claims = holder(vec![Role::Admin]);
    claims.token_type = TokenType::Refresh;
    assert_eq!(
        authorize(Presented::Decoded(claims), 1_500, Role::Admin),
        Err(AppError::InvalidToken)
    );
}

#[test]
fn roles_are_shown_under_their_stored_names() {
    assert_eq!(Role::Initiator.to_string(), "INITIATOR");
    assert_eq!(Role::Expert.to_string(), "EXPERT");
    assert_eq!(Role::ProjectOffice.to_string(), "PROJECT_OFFICE");
    assert_eq!(Role::Admin.to_string(), "ADMIN");
    assert_eq!(Role::Member.to_string(), "MEMBER");
    assert_eq!(Role::TeamLeader.to_string(), "TEAM_LEADER");
    assert_eq!(Role::TeamOwner.to_string(), "TEAM_OWNER");
    assert_eq!(Role::Teacher.to_string(), "TEACHER");
}

use hits_core::dtos::{ProfileUpdatePayload, UserCreatePayload, UserUpdatePayload};
use hits_core::error::AppError;
use hits_core::role::Role;
use hits_core::security::verify_password;
use hits_core::user::{create_admin, create_admin_with, NewUser, User, UserService};

fn user() -> User {
    User {
        id: 3,
        study_group: Some("G-1".to_string()),
        telephone: None,
        roles: vec![Role::Member],
        email: "a@x.com".to_string(),
        password: "hash".to_string(),
        last_name: "Lovelace".to_string(),
        first_name: "Ada".to_string(),
        created_at: 5,
        is_deleted: false,
    }
}

#[test]
fn created_account_has_lower_case_address_and_hashed_password() {
    let payload = UserCreatePayload {
        email: "Ada@X.com".to_string(),
        password: "12345678".to_string(),
        last_name: "Lovelace".to_string(),
        first_name: "Ada".to_string(),
        roles: vec![Role::Expert],
        study_group: None,
        telephone: Some("1".to_string()),
    };
    let created = UserService::create_user(payload).unwrap();
    assert_eq!(created.email, "ada@x.com");
    assert!(verify_password(&created.password, "12345678"));
    assert_eq!(created.roles, vec![Role::Expert]);
    assert_eq!(created.first_name, "Ada");
    assert_eq!(created.last_name, "Lovelace");
    assert_eq!(created.study_group, None);
    assert_eq!(created.telephone, Some("1".to_string()));
}

#[test]
fn updated_account_has_lower_case_address() {
    let payload = UserUpdatePayload {
        id: 3,
        study_group: None,
        telephone: None,
        roles: vec![Role::Teacher],
        email: "ADA@X.COM".to_string(),
        last_name: "Lovelace".to_string(),
        first_name: "Ada".to_string(),
    };
    assert_eq!(
        UserService::update_user(payload.clone()),
        UserUpdatePayload { email: "ada@x.com".to_string(), ..payload }
    );
}

#[test]
fn profile_update_overwrites_names_group_and_telephone() {
    let payload = ProfileUpdatePayload {
        last_name: "Byron".to_string(),
        first_name: "Augusta".to_string(),
        study_group: None,
        telephone: Some("2".to_string()),
    };
    assert_eq!(
        UserService::update_profile(Some(user()), payload.clone()),
        Ok(User {
            last_name: "Byron".to_string(),
            first_name: "Augusta".to_string(),
            study_group: None,
            telephone: Some("2".to_string()),
            ..user()
        })
    );
    assert_eq!(UserService::update_profile(None, payload), Err(AppError::NotFound));
}

#[test]
fn deletion_marks_and_restoration_unmarks() {
    let deleted = UserService::delete_user(Some(user())).unwrap();
    assert_eq!(deleted, User { is_deleted: true, ..user() });
    assert_eq!(UserService::restore_user(Some(deleted)), Ok(user()));
    assert_eq!(UserService::delete_user(None), Err(AppError::NotFound));
    assert_eq!(UserService::restore_user(None), Err(AppError::NotFound));
}

#[test]
fn first_admin_is_made_once() {
    assert_eq!(create_admin(true, "root@x.com", "password"), Ok(None));
    let admin = create_admin(false, "root@x.com", "password").unwrap().unwrap();
    assert_eq!(admin.email, "root@x.com");
    assert!(verify_password(&admin.password, "password"));
    assert_eq!(admin.first_name, "Живая");
    assert_eq!(admin.last_name, "Легенда");
    assert_eq!(admin.roles, vec![Role::Admin, Role::Initiator]);
    assert_eq!(admin.study_group, None);
    assert_eq!(admin.telephone, None);
}

fn creation() -> UserCreatePayload {
    UserCreatePayload {
        email: "Ada@X.com".to_string(),
        password: "12345678".to_string(),
        last_name: "Lovelace".to_string(),
        first_name: "Ada".to_string(),
        roles: vec![Role::Expert],
        study_group: None,
        telephone: Some("1".to_string()),
    }
}

#[test]
fn created_account_stores_the_hash_that_it_is_given() {
    assert_eq!(
        UserService::create_user_with(creation(), Ok("$hash".to_string())),
        Ok(NewUser {
            email: "ada@x.com".to_string(),
            password: "$hash".to_string(),
            last_name: "Lovelace".to_string(),
            first_name: "Ada".to_string(),
            roles: vec![Role::Expert],
            study_group: None,
            telephone: Some("1".to_string()),
        })
    );
    assert_eq!(
        UserService::create_user_with(creation(), Err(AppError::InternalServerError)),
        Err(AppError::InternalServerError)
    );
}

#[test]
fn first_admin_stores_the_hash_that_it_is_given() {
    let admin = create_admin_with(false, "root@x.com", Ok("$hash".to_string())).unwrap().unwrap();
    assert_eq!(
        admin,
        NewUser {
            email: "root@x.com".to_string(),
            password: "$hash".to_string(),
            last_name: "Легенда".to_string(),
            first_name: "Живая".to_string(),
            roles: vec![Role::Admin, Role::Initiator],
            study_group: None,
            telephone: None,
        }
    );
    assert_eq!(
        create_admin_with(false, "root@x.com", Err(AppError::InternalServerError)),
        Err(AppError::InternalServerError)
    );
    assert_eq!(create_admin_with(true, "root@x.com", Err(AppError::InternalServerError)), Ok(None));
    assert_eq!(create_admin_with(true, "root@x.com", Ok("$hash".to_string())), Ok(None));
}

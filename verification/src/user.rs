//! Accounts: what an administrator and a user may change of them.

use crate::dtos::{ProfileUpdatePayload, UserCreatePayload, UserUpdatePayload};
use crate::error::{outcome_view, AppError, AppErrorView};
use crate::role::Role;
use crate::security::{hash_password, hashed, password_matches, LONGEST_PASSWORD};
use crate::text::{lowercase, optional_view, to_lowercase};
use vstd::prelude::*;

verus! {

/// An account as the persistence layer keeps it.
#[derive(Debug, Clone, PartialEq, Eq)]
pub struct User {
    pub id: u128,
    pub study_group: Option<String>,
    pub telephone: Option<String>,
    pub roles: Vec<Role>,
    pub email: String,
    /// The salted hash of the password.
    pub password: String,
    pub last_name: String,
    pub first_name: String,
    /// The instant, in microseconds since the Unix epoch, at which the
    /// account was made.
    pub created_at: i64,
    pub is_deleted: bool,
}

/// The model of a [`User`].
pub struct UserView {
    pub id: u128,
    pub study_group: Option<Seq<char>>,
    pub telephone: Option<Seq<char>>,
    pub roles: Seq<Role>,
    pub email: Seq<char>,
    pub password: Seq<char>,
    pub last_name: Seq<char>,
    pub first_name: Seq<char>,
    pub created_at: i64,
    pub is_deleted: bool,
}

impl View for User {
    type V = UserView;

    open spec fn view(&self) -> UserView {
        UserView {
            id: self.id,
            study_group: optional_view(self.study_group),
            telephone: optional_view(self.telephone),
            roles: self.roles@,
            email: self.email@,
            password: self.password@,
            last_name: self.last_name@,
            first_name: self.first_name@,
            created_at: self.created_at,
            is_deleted: self.is_deleted,
        }
    }
}

/// The model of an account that may be missing.
pub open spec fn user_view(found: Option<User>) -> Option<UserView> {
    match found {
        Some(user) => Some(user@),
        None => None,
    }
}

/// An account that is to be inserted. The persistence layer gives it its
/// identity and the time of its making.
#[derive(Debug, Clone, PartialEq, Eq)]
pub struct NewUser {
    pub email: String,
    /// The salted hash of the password.
    pub password: String,
    pub last_name: String,
    pub first_name: String,
    pub roles: Vec<Role>,
    pub study_group: Option<String>,
    pub telephone: Option<String>,
}

/// The model of a [`NewUser`].
pub struct NewUserView {
    pub email: Seq<char>,
    pub password: Seq<char>,
    pub last_name: Seq<char>,
    pub first_name: Seq<char>,
    pub roles: Seq<Role>,
    pub study_group: Option<Seq<char>>,
    pub telephone: Option<Seq<char>>,
}

impl View for NewUser {
    type V = NewUserView;

    open spec fn view(&self) -> NewUserView {
        NewUserView {
            email: self.email@,
            password: self.password@,
            last_name: self.last_name@,
            first_name: self.first_name@,
            roles: self.roles@,
            study_group: optional_view(self.study_group),
            telephone: optional_view(self.telephone),
        }
    }
}

/// The home of the operations on users.
pub struct UserService;

/// The answer to a change of profile: the account that was found, with
/// the names, the study group and the telephone overwritten.
pub open spec fn profile_updated(
    found: Option<UserView>,
    last_name: Seq<char>,
    first_name: Seq<char>,
    study_group: Option<Seq<char>>,
    telephone: Option<Seq<char>>,
) -> Result<UserView, AppErrorView> {
    match found {
        Some(user) => Ok(UserView { last_name, first_name, study_group, telephone, ..user }),
        None => Err(AppErrorView::NotFound),
    }
}

/// The answer to a deletion or a restoration: the account that was found,
/// marked as `deleted` says.
pub open spec fn deletion_marked(found: Option<UserView>, deleted: bool) -> Result<
    UserView,
    AppErrorView,
> {
    match found {
        Some(user) => Ok(UserView { is_deleted: deleted, ..user }),
        None => Err(AppErrorView::NotFound),
    }
}

/// The answer to the creation of an account by an administrator, where
/// `hash` is what the hasher made of the password: the account with the
/// address in lower case and the hash, or the failure of the hasher.
pub open spec fn created(
    email: Seq<char>,
    last_name: Seq<char>,
    first_name: Seq<char>,
    roles: Seq<Role>,
    study_group: Option<Seq<char>>,
    telephone: Option<Seq<char>>,
    hash: Result<Seq<char>, AppErrorView>,
) -> Result<NewUserView, AppErrorView> {
    match hash {
        Ok(hash) => Ok(
            NewUserView {
                email: lowercase(email),
                password: hash,
                last_name,
                first_name,
                roles,
                study_group,
                telephone,
            },
        ),
        Err(e) => Err(e),
    }
}

impl UserService {
    /// Prepares the account that an administrator creates, with a hash that
    /// is given: the address in lower case, the hash for the password, the
    /// rest as given. A hasher that failed fails the creation.
    pub fn create_user_with(payload: UserCreatePayload, hash: Result<String, AppError>) -> (outcome:
        Result<NewUser, AppError>)
        ensures
            outcome_view(outcome) == created(
                payload.email@,
                payload.last_name@,
                payload.first_name@,
                payload.roles@,
                optional_view(payload.study_group),
                optional_view(payload.telephone),
                outcome_view(hash),
            ),
    {
        let hash = match hash {
            Ok(hash) => hash,
            Err(e) => { return Err(e); },
        };
        Ok(
            NewUser {
                email: to_lowercase(payload.email.as_str()),
                password: hash,
                last_name: payload.last_name,
                first_name: payload.first_name,
                roles: payload.roles,
                study_group: payload.study_group,
                telephone: payload.telephone,
            },
        )
    }

    /// Prepares the account that an administrator creates: the address in
    /// lower case, the password hashed under a fresh salt, the rest as
    /// given. The account is owed for every password of at most
    /// `LONGEST_PASSWORD` characters.
    pub fn create_user(payload: UserCreatePayload) -> (outcome: Result<NewUser, AppError>)
        ensures
            exists|salt: Seq<char>|
                outcome_view(outcome) == created(
                    payload.email@,
                    payload.last_name@,
                    payload.first_name@,
                    payload.roles@,
                    optional_view(payload.study_group),
                    optional_view(payload.telephone),
                    #[trigger] hashed(payload.password@, salt),
                ),
            outcome matches Ok(user) ==> password_matches(user.password@, payload.password@),
            payload.password@.len() <= LONGEST_PASSWORD ==> outcome is Ok,
    {
        let hash = hash_password(payload.password.as_str());
        Self::create_user_with(payload, hash)
    }

    /// Prepares the change that an administrator makes to an account: the
    /// address in lower case, the rest as given.
    pub fn update_user(payload: UserUpdatePayload) -> (change: UserUpdatePayload)
        ensures
            change.email@ == lowercase(payload.email@),
            change.id == payload.id,
            change.roles@ == payload.roles@,
            change.last_name@ == payload.last_name@,
            change.first_name@ == payload.first_name@,
            optional_view(change.study_group) == optional_view(payload.study_group),
            optional_view(change.telephone) == optional_view(payload.telephone),
    {
        UserUpdatePayload {
            id: payload.id,
            study_group: payload.study_group,
            telephone: payload.telephone,
            roles: payload.roles,
            email: to_lowercase(payload.email.as_str()),
            last_name: payload.last_name,
            first_name: payload.first_name,
        }
    }

    /// Overwrites the profile of the account that was found: the names, the
    /// study group and the telephone. A missing account is not found.
    pub fn update_profile(found: Option<User>, payload: ProfileUpdatePayload) -> (outcome: Result<
        User,
        AppError,
    >)
        ensures
            outcome_view(outcome) == profile_updated(
                user_view(found),
                payload.last_name@,
                payload.first_name@,
                optional_view(payload.study_group),
                optional_view(payload.telephone),
            ),
    {
        match found {
            Some(user) => Ok(
                User {
                    id: user.id,
                    study_group: payload.study_group,
                    telephone: payload.telephone,
                    roles: user.roles,
                    email: user.email,
                    password: user.password,
                    last_name: payload.last_name,
                    first_name: payload.first_name,
                    created_at: user.created_at,
                    is_deleted: user.is_deleted,
                },
            ),
            None => Err(AppError::NotFound),
        }
    }

    /// Brings back the account that was found and had been deleted. A
    /// missing account is not found.
    pub fn restore_user(found: Option<User>) -> (outcome: Result<User, AppError>)
        ensures
            outcome_view(outcome) == deletion_marked(user_view(found), false),
    {
        match found {
            Some(user) => Ok(
                User {
                    id: user.id,
                    study_group: user.study_group,
                    telephone: user.telephone,
                    roles: user.roles,
                    email: user.email,
                    password: user.password,
                    last_name: user.last_name,
                    first_name: user.first_name,
                    created_at: user.created_at,
                    is_deleted: false,
                },
            ),
            None => Err(AppError::NotFound),
        }
    }

    /// Marks the account that was found as deleted; the record stays. A
    /// missing account is not found.
    pub fn delete_user(found: Option<User>) -> (outcome: Result<User, AppError>)
        ensures
            outcome_view(outcome) == deletion_marked(user_view(found), true),
    {
        match found {
            Some(user) => Ok(
                User {
                    id: user.id,
                    study_group: user.study_group,
                    telephone: user.telephone,
                    roles: user.roles,
                    email: user.email,
                    password: user.password,
                    last_name: user.last_name,
                    first_name: user.first_name,
                    created_at: user.created_at,
                    is_deleted: true,
                },
            ),
            None => Err(AppError::NotFound),
        }
    }
}

/// The first administrator, made at startup where the persistence layer has
/// no account under the configured address.
pub open spec fn first_admin(username: Seq<char>, hash: Seq<char>) -> NewUserView {
    NewUserView {
        email: username,
        password: hash,
        last_name: "Легенда"@,
        first_name: "Живая"@,
        roles: seq![Role::Admin, Role::Initiator],
        study_group: None,
        telephone: None,
    }
}

/// The answer to the making of the first administrator, where `hash` is
/// what the hasher made of the configured password: nothing is to be
/// inserted where an account has the address already; else the
/// administrator with the hash, or the failure of the hasher.
pub open spec fn admin_made(
    found: bool,
    username: Seq<char>,
    hash: Result<Seq<char>, AppErrorView>,
) -> Result<Option<NewUserView>, AppErrorView> {
    if found {
        Ok(None)
    } else {
        match hash {
            Ok(hash) => Ok(Some(first_admin(username, hash))),
            Err(e) => Err(e),
        }
    }
}

/// The model of the answer to the making of the first administrator.
pub open spec fn admin_view(outcome: Result<Option<NewUser>, AppError>) -> Result<
    Option<NewUserView>,
    AppErrorView,
> {
    match outcome {
        Ok(Some(admin)) => Ok(Some(admin@)),
        Ok(None) => Ok(None),
        Err(e) => Err(e@),
    }
}

/// Prepares the first administrator at startup with a hash that is given.
/// `found` says whether an account has the configured address already;
/// then nothing is to be inserted and the hash is not read.
pub fn create_admin_with(found: bool, username: &str, hash: Result<String, AppError>) -> (outcome:
    Result<Option<NewUser>, AppError>)
    ensures
        admin_view(outcome) == admin_made(found, username@, outcome_view(hash)),
{
    if found {
        return Ok(None);
    }
    let hash = match hash {
        Ok(hash) => hash,
        Err(e) => { return Err(e); },
    };
    let mut roles: Vec<Role> = Vec::new();
    roles.push(Role::Admin);
    roles.push(Role::Initiator);
    assert(roles@ =~= seq![Role::Admin, Role::Initiator]);
    Ok(
        Some(
            NewUser {
                email: String::from_str(username),
                password: hash,
                last_name: String::from_str("Легенда"),
                first_name: String::from_str("Живая"),
                roles,
                study_group: None,
                telephone: None,
            },
        ),
    )
}

/// Prepares the first administrator at startup. `found` says whether an
/// account has the configured address already; then nothing is to be
/// inserted. Else the account comes back with the configured password
/// hashed under a fresh salt; it is owed for every password of at most
/// `LONGEST_PASSWORD` characters.
pub fn create_admin(found: bool, username: &str, password: &str) -> (outcome: Result<
    Option<NewUser>,
    AppError,
>)
    ensures
        exists|salt: Seq<char>|
            admin_view(outcome) == admin_made(found, username@, #[trigger] hashed(password@, salt)),
        outcome matches Ok(Some(admin)) ==> password_matches(admin.password@, password@),
        password@.len() <= LONGEST_PASSWORD ==> outcome is Ok,
{
    if found {
        let outcome = create_admin_with(found, username, Err(AppError::InternalServerError));
        assert(admin_view(outcome) == admin_made(found, username@, hashed(password@, Seq::empty())));
        outcome
    } else {
        let hash = hash_password(password);
        create_admin_with(found, username, hash)
    }
}

} // verus!

//! Sessions: login, registration by invitation, and the refresh that
//! continues a session without widening it.

use crate::dtos::{email_complaint, password_complaint, validated, LoginPayload, RegisterPayload};
use crate::error::{outcome_view, AppError, AppErrorView};
use crate::invitation::{open_at, Invitation, InvitationView};
use crate::security::{
    authenticate, clock, hash_password, hashed, issue, issued, password_matches, since_epoch,
    LONGEST_PASSWORD,
    verdict, verify_password, Claims, ClaimsView, Presented, PresentedView, TokenPair, TokenType,
    REFRESH_TTL,
};
use crate::text::{lowercase, optional_view, to_lowercase};
use crate::user::{user_view, NewUser, NewUserView, User, UserView};
use vstd::prelude::*;

verus! {

/// The home of the operations on sessions.
pub struct AuthService;

/// The answer to a login: the account, if the credentials keep their rules,
/// the account exists and the password matches its hash. An address that
/// no account has and a password that does not match are answered alike,
/// so that the answer does not tell whether the address is registered.
pub open spec fn logged_in(
    email: Seq<char>,
    password: Seq<char>,
    found: Option<UserView>,
) -> Result<UserView, AppErrorView> {
    match validated(email_complaint(email) + password_complaint(password)) {
        Err(e) => Err(e),
        Ok(()) => match found {
            None => Err(AppErrorView::WrongCredentials),
            Some(user) => if password_matches(user.password, password) {
                Ok(user)
            } else {
                Err(AppErrorView::WrongCredentials)
            },
        },
    }
}

/// A login that fails on its credentials fails in one way. Whether the
/// address has no account or the password does not match the account's
/// hash, the answer to credentials that keep their rules is the same.
pub proof fn failed_login_does_not_tell_why(
    email: Seq<char>,
    password: Seq<char>,
    user: UserView,
)
    requires
        validated(email_complaint(email) + password_complaint(password)) is Ok,
        !password_matches(user.password, password),
    ensures
        logged_in(email, password, None) == logged_in(email, password, Some(user)),
        logged_in(email, password, None) == Err::<UserView, AppErrorView>(
            AppErrorView::WrongCredentials,
        ),
{
}

/// What a registration writes, in one transaction: the account is inserted
/// and the invitation stored again, closed.
#[derive(Debug, Clone, PartialEq, Eq)]
pub struct Registration {
    pub user: NewUser,
    pub invitation: Invitation,
}

/// The model of a [`Registration`].
pub struct RegistrationView {
    pub user: NewUserView,
    pub invitation: InvitationView,
}

impl View for Registration {
    type V = RegistrationView;

    open spec fn view(&self) -> RegistrationView {
        RegistrationView { user: self.user@, invitation: self.invitation@ }
    }
}

/// The model of an invitation that may be missing.
pub open spec fn invitation_found(found: Option<Invitation>) -> Option<InvitationView> {
    match found {
        Some(invitation) => Some(invitation@),
        None => None,
    }
}

/// Whether a registration is admitted: its payload keeps its rules and its
/// invitation is there and open at `now`.
pub open spec fn admitted(
    email: Seq<char>,
    password: Seq<char>,
    found: Option<InvitationView>,
    now: i64,
) -> bool {
    validated(email_complaint(email) + password_complaint(password)) is Ok && (
    found matches Some(invitation) && open_at(invitation, now))
}

/// The answer to a registration at `now`, where `hash` is what the hasher
/// made of the password. A payload that breaks its rules is refused first;
/// an invitation that is missing or closed is not found; only then is the
/// hash read, and a hasher that failed fails the registration. Else the
/// account gets the address of the invitation in lower case, its roles and
/// the hash, and the names, the study group and the telephone of the
/// payload; and the invitation closes at `now`.
pub open spec fn registered(
    email: Seq<char>,
    password: Seq<char>,
    last_name: Seq<char>,
    first_name: Seq<char>,
    study_group: Option<Seq<char>>,
    telephone: Option<Seq<char>>,
    found: Option<InvitationView>,
    now: i64,
    hash: Result<Seq<char>, AppErrorView>,
) -> Result<RegistrationView, AppErrorView> {
    match validated(email_complaint(email) + password_complaint(password)) {
        Err(e) => Err(e),
        Ok(()) => match found {
            None => Err(AppErrorView::NotFound),
            Some(invitation) => if !open_at(invitation, now) {
                Err(AppErrorView::NotFound)
            } else {
                match hash {
                    Err(e) => Err(e),
                    Ok(hash) => Ok(
                        RegistrationView {
                            user: NewUserView {
                                email: lowercase(invitation.email),
                                password: hash,
                                last_name,
                                first_name,
                                roles: invitation.roles,
                                study_group,
                                telephone,
                            },
                            invitation: InvitationView { expiry_date: now, ..invitation },
                        },
                    ),
                }
            },
        },
    }
}

/// The tokens of the session that a refresh token continues: the same
/// subject, names and roles, issued anew at `now`.
pub open spec fn refreshed(presented: PresentedView, now: u64) -> Result<
    (ClaimsView, ClaimsView),
    AppErrorView,
> {
    match verdict(presented, TokenType::Refresh, now) {
        Ok(claims) => Ok(
            (issued(claims, TokenType::Access, now), issued(claims, TokenType::Refresh, now)),
        ),
        Err(e) => Err(e),
    }
}

/// The model of the answer to a refresh.
pub open spec fn pair_view(outcome: Result<TokenPair, AppError>) -> Result<
    (ClaimsView, ClaimsView),
    AppErrorView,
> {
    match outcome {
        Ok(pair) => Ok((pair.access@, pair.refresh@)),
        Err(e) => Err(e@),
    }
}

impl AuthService {
    /// The address under which the account of a login is looked up.
    pub fn login_email(payload: &LoginPayload) -> (email: String)
        ensures
            email@ == lowercase(payload.email@),
    {
        to_lowercase(payload.email.as_str())
    }

    /// Decides a login. `found` is the account that the persistence layer
    /// holds under the lower-case form of the address.
    pub fn login(payload: &LoginPayload, found: Option<User>) -> (outcome: Result<User, AppError>)
        ensures
            outcome_view(outcome) == logged_in(
                payload.email@,
                payload.password@,
                user_view(found),
            ),
    {
        match payload.validate() {
            Err(e) => { return Err(e); },
            Ok(()) => {},
        }
        match found {
            None => Err(AppError::WrongCredentials),
            Some(user) => {
                if verify_password(user.password.as_str(), payload.password.as_str()) {
                    Ok(user)
                } else {
                    Err(AppError::WrongCredentials)
                }
            },
        }
    }

    /// Decides a registration at `now` with a hash that is given. `found` is
    /// the invitation that the persistence layer holds under the identifier
    /// that was presented, `hash` what the hasher made of the password of
    /// the payload. The payload must keep its rules and the invitation be
    /// open; only then is the hash read. The account gets the address and
    /// the roles of the invitation, not what the payload says, and the
    /// invitation closes at `now`.
    pub fn register_user_with(
        payload: RegisterPayload,
        found: Option<Invitation>,
        now: i64,
        hash: Result<String, AppError>,
    ) -> (outcome: Result<Registration, AppError>)
        ensures
            outcome_view(outcome) == registered(
                payload.email@,
                payload.password@,
                payload.last_name@,
                payload.first_name@,
                optional_view(payload.study_group),
                optional_view(payload.telephone),
                invitation_found(found),
                now,
                outcome_view(hash),
            ),
    {
        match payload.validate() {
            Err(e) => { return Err(e); },
            Ok(()) => {},
        }
        let invitation = match found {
            Some(invitation) => invitation,
            None => { return Err(AppError::NotFound); },
        };
        if !(invitation.expiry_date > now) {
            return Err(AppError::NotFound);
        }
        let hash = match hash {
            Ok(hash) => hash,
            Err(e) => { return Err(e); },
        };
        let user = NewUser {
            email: to_lowercase(invitation.email.as_str()),
            password: hash,
            last_name: payload.last_name,
            first_name: payload.first_name,
            roles: crate::role::copy_roles(&invitation.roles),
            study_group: payload.study_group,
            telephone: payload.telephone,
        };
        let closed = Invitation {
            id: invitation.id,
            email: invitation.email,
            roles: invitation.roles,
            expiry_date: now,
        };
        Ok(Registration { user, invitation: closed })
    }

    /// Decides a registration at `now`. `found` is the invitation that the
    /// persistence layer holds under the identifier that was presented. The
    /// payload must keep its rules and the invitation be open. The password
    /// is then hashed under a fresh salt; the account is owed for every
    /// password of at most `LONGEST_PASSWORD` characters. The account gets
    /// the address and the roles of the invitation, not what the payload
    /// says, and the invitation closes at `now`.
    pub fn register_user(payload: RegisterPayload, found: Option<Invitation>, now: i64) -> (outcome:
        Result<Registration, AppError>)
        ensures
            exists|salt: Seq<char>|
                outcome_view(outcome) == registered(
                    payload.email@,
                    payload.password@,
                    payload.last_name@,
                    payload.first_name@,
                    optional_view(payload.study_group),
                    optional_view(payload.telephone),
                    invitation_found(found),
                    now,
                    #[trigger] hashed(payload.password@, salt),
                ),
            outcome matches Ok(registration) ==> password_matches(
                registration.user.password@,
                payload.password@,
            ),
            admitted(payload.email@, payload.password@, invitation_found(found), now)
                && payload.password@.len() <= LONGEST_PASSWORD ==> outcome is Ok,
    {
        let open = match &found {
            Some(invitation) => invitation.expiry_date > now,
            None => false,
        };
        let valid = match payload.validate() {
            Ok(()) => true,
            Err(_) => false,
        };
        if valid && open {
            let hash = hash_password(payload.password.as_str());
            let ghost salt = choose|salt: Seq<char>|
                outcome_view(hash) == #[trigger] hashed(payload.password@, salt);
            let outcome = Self::register_user_with(payload, found, now, hash);
            assert(outcome_view(outcome) == registered(
                payload.email@,
                payload.password@,
                payload.last_name@,
                payload.first_name@,
                optional_view(payload.study_group),
                optional_view(payload.telephone),
                invitation_found(found),
                now,
                hashed(payload.password@, salt),
            ));
            outcome
        } else {
            let outcome = Self::register_user_with(
                payload,
                found,
                now,
                Err(AppError::InternalServerError),
            );
            assert(outcome_view(outcome) == registered(
                payload.email@,
                payload.password@,
                payload.last_name@,
                payload.first_name@,
                optional_view(payload.study_group),
                optional_view(payload.telephone),
                invitation_found(found),
                now,
                hashed(payload.password@, Seq::empty()),
            ));
            outcome
        }
    }

    /// Authenticates a request by its refresh cookie, at the time that the
    /// clock shows.
    pub fn refresh(presented: Presented) -> (outcome: Result<Claims, AppError>)
        ensures
            exists|seconds: i64|
                outcome_view(outcome) == verdict(
                    presented@,
                    TokenType::Refresh,
                    #[trigger] since_epoch(seconds),
                ),
    {
        authenticate(presented, TokenType::Refresh, clock())
    }
}

/// Continues a session at `now`: checks the refresh token and issues the
/// claims of a fresh pair for the same subject. The roles are those that the
/// refresh token carries; nothing is added to them.
pub fn refresh_at(presented: Presented, now: u64) -> (outcome: Result<TokenPair, AppError>)
    requires
        now + REFRESH_TTL <= u64::MAX,
    ensures
        pair_view(outcome) == refreshed(presented@, now),
{
    match authenticate(presented, TokenType::Refresh, now) {
        Ok(claims) => Ok(
            TokenPair {
                access: issue(&claims, TokenType::Access, now),
                refresh: issue(&claims, TokenType::Refresh, now),
            },
        ),
        Err(e) => Err(e),
    }
}

/// Continues a session at the time that the clock shows: the answer is
/// that of [`refresh_at`] at that time.
pub fn refresh(presented: Presented) -> (outcome: Result<TokenPair, AppError>)
    ensures
        exists|seconds: i64|
            pair_view(outcome) == refreshed(presented@, #[trigger] since_epoch(seconds)),
{
    refresh_at(presented, clock())
}

/// A refresh continues the session as it is. The fresh pair is issued to
/// the subject of the refresh token, under the names and with the roles
/// that the token carries: a refresh never adds a role. The pair is one
/// access token and one refresh token, both issued at `now`.
pub proof fn refresh_keeps_subject_and_roles(presented: PresentedView, now: u64)
    requires
        now + REFRESH_TTL <= u64::MAX,
    ensures
        refreshed(presented, now) matches Ok(pair) ==> presented matches PresentedView::Decoded(
            claims,
        ) && claims.token_type == TokenType::Refresh && pair.0 == (ClaimsView {
            exp: (now + crate::security::ACCESS_TTL) as u64,
            iat: now,
            token_type: TokenType::Access,
            ..claims
        }) && pair.1 == (ClaimsView { exp: (now + REFRESH_TTL) as u64, iat: now, ..claims }),
{
}

} // verus!

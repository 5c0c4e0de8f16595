//! What callers send and receive, and the rules that what they send must
//! keep.

use crate::error::{
    field_views, outcome_view, AppError, AppErrorView, FieldError, FieldErrorView,
};
use crate::role::Role;
use vstd::prelude::*;

verus! {

/// What `ValidateEmail::validate_email` finds of a text.
pub uninterp spec fn well_formed_email(text: Seq<char>) -> bool;

/// Calls `ValidateEmail::validate_email`: whether `text` is an e-mail
/// address by the rules of HTML forms, a function of the text alone.
#[verifier::external_body]
fn validate_email(text: &str) -> (ok: bool)
    ensures
        ok == well_formed_email(text@),
{
    validator::ValidateEmail::validate_email(&text)
}

/// The fewest characters that a password may have.
pub const MIN_PASSWORD_LENGTH: usize = 8;

/// The number of characters of a verification code.
pub const CODE_LENGTH: usize = 6;

/// The credentials with which a user logs in.
#[derive(Debug, Clone, PartialEq, Eq)]
pub struct LoginPayload {
    pub email: String,
    pub password: String,
}

/// What a holder of an invitation sends to register.
#[derive(Debug, Clone, PartialEq, Eq)]
pub struct RegisterPayload {
    pub email: String,
    pub password: String,
    pub last_name: String,
    pub first_name: String,
    pub study_group: Option<String>,
    pub telephone: Option<String>,
}

/// The confirmation of a change of password: the code that was mailed, and
/// the new password.
#[derive(Debug, Clone, PartialEq, Eq)]
pub struct PasswordResetPayload {
    pub id: u128,
    pub code: String,
    pub password: String,
}

/// The confirmation of a change of address: the code that was mailed.
#[derive(Debug, Clone, PartialEq, Eq)]
pub struct EmailResetPayload {
    pub id: u128,
    pub code: String,
}

/// What a user may change of the own profile.
#[derive(Debug, Clone, PartialEq, Eq)]
pub struct ProfileUpdatePayload {
    pub last_name: String,
    pub first_name: String,
    pub study_group: Option<String>,
    pub telephone: Option<String>,
}

/// The account that an administrator creates.
#[derive(Debug, Clone, PartialEq, Eq)]
pub struct UserCreatePayload {
    pub email: String,
    pub password: String,
    pub last_name: String,
    pub first_name: String,
    pub roles: Vec<Role>,
    pub study_group: Option<String>,
    pub telephone: Option<String>,
}

/// What an administrator may change of an account.
#[derive(Debug, Clone, PartialEq, Eq)]
pub struct UserUpdatePayload {
    pub id: u128,
    pub study_group: Option<String>,
    pub telephone: Option<String>,
    pub roles: Vec<Role>,
    pub email: String,
    pub last_name: String,
    pub first_name: String,
}

/// A page of a listing.
#[derive(Clone, Copy, Debug, PartialEq, Eq)]
pub struct PaginationParams {
    pub page: u64,
    pub page_size: u64,
}

/// An answer that is one sentence.
#[derive(Debug, Clone, PartialEq, Eq)]
pub struct MessageResponse {
    pub message: String,
}

/// An answer that is one identifier.
#[derive(Clone, Copy, Debug, PartialEq, Eq)]
pub struct IdResponse {
    pub id: u128,
}

/// What the holder of an invitation learns of it.
#[derive(Debug, Clone, PartialEq, Eq)]
pub struct InvitationResponse {
    pub email: String,
    pub code: u128,
}

/// The complaint that a broken rule raises: none where the rule holds.
pub open spec fn complaint(holds: bool, field: Seq<char>, message: Seq<char>) -> Seq<
    FieldErrorView,
> {
    if holds {
        Seq::empty()
    } else {
        seq![FieldErrorView { field, messages: seq![message] }]
    }
}

/// The complaint against an address that is none.
pub open spec fn email_complaint(email: Seq<char>) -> Seq<FieldErrorView> {
    complaint(well_formed_email(email), "email"@, "Некорректный формат email"@)
}

/// The complaint against a password that is too short.
pub open spec fn password_complaint(password: Seq<char>) -> Seq<FieldErrorView> {
    complaint(
        password.len() >= MIN_PASSWORD_LENGTH,
        "password"@,
        "Пароль должен быть не менее 8 символов"@,
    )
}

/// The complaint against a code of the wrong length.
pub open spec fn code_complaint(code: Seq<char>) -> Seq<FieldErrorView> {
    complaint(code.len() == CODE_LENGTH, "code"@, "Код должен состоять из 6 цифр"@)
}

/// The answer of a validation that raised these complaints.
pub open spec fn validated(complaints: Seq<FieldErrorView>) -> Result<(), AppErrorView> {
    if complaints.len() == 0 {
        Ok(())
    } else {
        Err(AppErrorView::ValidationError(complaints))
    }
}

fn complain(complaints: &mut Vec<FieldError>, holds: bool, field: &str, message: &str)
    ensures
        field_views(final(complaints)@) == field_views(old(complaints)@) + complaint(
            holds,
            field@,
            message@,
        ),
{
    if !holds {
        let mut messages: Vec<String> = Vec::new();
        messages.push(String::from_str(message));
        assert(crate::text::views(messages@) =~= seq![message@]);
        complaints.push(FieldError { field: String::from_str(field), messages });
    }
}

fn complain_of_email(complaints: &mut Vec<FieldError>, email: &str)
    ensures
        field_views(final(complaints)@) == field_views(old(complaints)@) + email_complaint(
            email@,
        ),
{
    complain(complaints, validate_email(email), "email", "Некорректный формат email");
}

fn complain_of_password(complaints: &mut Vec<FieldError>, password: &str)
    ensures
        field_views(final(complaints)@) == field_views(old(complaints)@) + password_complaint(
            password@,
        ),
{
    complain(
        complaints,
        password.unicode_len() >= MIN_PASSWORD_LENGTH,
        "password",
        "Пароль должен быть не менее 8 символов",
    );
}

fn complain_of_code(complaints: &mut Vec<FieldError>, code: &str)
    ensures
        field_views(final(complaints)@) == field_views(old(complaints)@) + code_complaint(code@),
{
    complain(
        complaints,
        code.unicode_len() == CODE_LENGTH,
        "code",
        "Код должен состоять из 6 цифр",
    );
}

fn conclude(complaints: Vec<FieldError>) -> (outcome: Result<(), AppError>)
    ensures
        outcome_view(outcome) == validated(field_views(complaints@)),
{
    if complaints.len() == 0 {
        Ok(())
    } else {
        Err(AppError::ValidationError(complaints))
    }
}

fn no_complaints() -> (complaints: Vec<FieldError>)
    ensures
        field_views(complaints@) == Seq::<FieldErrorView>::empty(),
{
    let complaints: Vec<FieldError> = Vec::new();
    complaints
}

impl LoginPayload {
    /// Holds the credentials to their rules: the address is an e-mail
    /// address, the password has at least eight characters.
    pub fn validate(&self) -> (outcome: Result<(), AppError>)
        ensures
            outcome_view(outcome) == validated(
                email_complaint(self.email@) + password_complaint(self.password@),
            ),
    {
        let mut complaints = no_complaints();
        complain_of_email(&mut complaints, self.email.as_str());
        complain_of_password(&mut complaints, self.password.as_str());
        conclude(complaints)
    }
}

impl RegisterPayload {
    /// Holds the registration to its rules: the address is an e-mail
    /// address, the password has at least eight characters.
    pub fn validate(&self) -> (outcome: Result<(), AppError>)
        ensures
            outcome_view(outcome) == validated(
                email_complaint(self.email@) + password_complaint(self.password@),
            ),
    {
        let mut complaints = no_complaints();
        complain_of_email(&mut complaints, self.email.as_str());
        complain_of_password(&mut complaints, self.password.as_str());
        conclude(complaints)
    }
}

impl PasswordResetPayload {
    /// Holds the confirmation to its rules: the code has six characters, the
    /// new password at least eight.
    pub fn validate(&self) -> (outcome: Result<(), AppError>)
        ensures
            outcome_view(outcome) == validated(
                code_complaint(self.code@) + password_complaint(self.password@),
            ),
    {
        let mut complaints = no_complaints();
        complain_of_code(&mut complaints, self.code.as_str());
        complain_of_password(&mut complaints, self.password.as_str());
        conclude(complaints)
    }
}

impl EmailResetPayload {
    /// Holds the confirmation to its rule: the code has six characters.
    pub fn validate(&self) -> (outcome: Result<(), AppError>)
        ensures
            outcome_view(outcome) == validated(code_complaint(self.code@)),
    {
        let mut complaints = no_complaints();
        complain_of_code(&mut complaints, self.code.as_str());
        conclude(complaints)
    }
}

} // verus!

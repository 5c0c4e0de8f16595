//! The confirmation of a one-time code, from the lookup of the code to
//! the commit of what it confirms.

use crate::dtos::{
    code_complaint, password_complaint, validated, EmailResetPayload, PasswordResetPayload,
};
use crate::error::{outcome_view, AppError, AppErrorView, FieldErrorView};
use crate::security::{hash_password, hashed, password_matches, Claims, LONGEST_PASSWORD};
use crate::text::{copy_optional, optional_view};
use crate::user::UserService;
use crate::verification::{
    found_view, judged, VerificationCode, VerificationCodeView, MAX_WRONG_TRIES,
};
use vstd::prelude::*;

verus! {

/// What a confirmation waits for.
#[derive(Debug, Clone, PartialEq, Eq)]
pub enum ConfirmStep {
    /// The code that is stored under the identifier.
    Code,
    /// The storing of the count of wrong attempts, after which the
    /// confirmation ends with this error.
    Tries(AppError),
    /// Whether the account exists, in a transaction that stays open. The
    /// text is the address whose codes expire with the confirmation.
    Account(String),
    /// The update of the account.
    Update(String),
    /// The expiring of the codes.
    Expiry,
    /// The commit of the transaction.
    Commit,
    /// The rollback of the transaction, after this failure.
    Rollback(AppError),
    /// Nothing: the confirmation is over.
    Done,
}

/// The model of a [`ConfirmStep`].
pub enum ConfirmStepView {
    Code,
    Tries(AppErrorView),
    Account(Seq<char>),
    Update(Seq<char>),
    Expiry,
    Commit,
    Rollback(AppErrorView),
    Done,
}

impl View for ConfirmStep {
    type V = ConfirmStepView;

    open spec fn view(&self) -> ConfirmStepView {
        match self {
            ConfirmStep::Code => ConfirmStepView::Code,
            ConfirmStep::Tries(e) => ConfirmStepView::Tries(e@),
            ConfirmStep::Account(email) => ConfirmStepView::Account(email@),
            ConfirmStep::Update(email) => ConfirmStepView::Update(email@),
            ConfirmStep::Expiry => ConfirmStepView::Expiry,
            ConfirmStep::Commit => ConfirmStepView::Commit,
            ConfirmStep::Rollback(e) => ConfirmStepView::Rollback(e@),
            ConfirmStep::Done => ConfirmStepView::Done,
        }
    }
}

/// The confirmation of one code between two steps.
#[derive(Debug, Clone, PartialEq, Eq)]
pub struct Confirming {
    pub step: ConfirmStep,
    /// The identifier under which the code is stored.
    pub id: u128,
    /// The code that was presented.
    pub code: String,
    /// The current address of the account, where the caller is known.
    pub email: Option<String>,
    /// The new password, where one is to be set.
    pub password: Option<String>,
    /// The instant of the confirmation, in microseconds since the Unix
    /// epoch.
    pub now: i64,
}

/// The model of a [`Confirming`].
pub struct ConfirmingView {
    pub step: ConfirmStepView,
    pub id: u128,
    pub code: Seq<char>,
    pub email: Option<Seq<char>>,
    pub password: Option<Seq<char>>,
    pub now: i64,
}

impl View for Confirming {
    type V = ConfirmingView;

    open spec fn view(&self) -> ConfirmingView {
        ConfirmingView {
            step: self.step@,
            id: self.id,
            code: self.code@,
            email: optional_view(self.email),
            password: optional_view(self.password),
            now: self.now,
        }
    }
}

/// What becomes of an account when a code is confirmed.
#[derive(Debug, Clone, PartialEq, Eq)]
pub enum UserChange {
    /// The stored hash of the password becomes this.
    Password(String),
    /// The address becomes this.
    Email(String),
}

/// The model of a [`UserChange`].
pub enum UserChangeView {
    Password(Seq<char>),
    Email(Seq<char>),
}

impl View for UserChange {
    type V = UserChangeView;

    open spec fn view(&self) -> UserChangeView {
        match self {
            UserChange::Password(hash) => UserChangeView::Password(hash@),
            UserChange::Email(email) => UserChangeView::Email(email@),
        }
    }
}

/// What a confirmation asks its surroundings to do next.
#[derive(Debug, PartialEq, Eq)]
pub enum ConfirmAction {
    /// Find the code that is stored under this identifier.
    FindCode(u128),
    /// Store this count of wrong attempts with the code, outside of any
    /// transaction: the count stays whatever else is undone.
    StoreTries(u16),
    /// Open a transaction and find in it the account with this address.
    FindAccount(String),
    /// Change the account that was found.
    Update(UserChange),
    /// Let every code for this address expire that can still be confirmed.
    ExpireCodes(String),
    /// Commit the transaction.
    Commit,
    /// Roll the transaction back.
    Rollback,
    /// Answer the caller.
    Finish(Result<(), AppError>),
}

/// The model of a [`ConfirmAction`].
pub enum ConfirmActionView {
    FindCode(u128),
    StoreTries(u16),
    FindAccount(Seq<char>),
    Update(UserChangeView),
    ExpireCodes(Seq<char>),
    Commit,
    Rollback,
    Finish(Result<(), AppErrorView>),
}

impl View for ConfirmAction {
    type V = ConfirmActionView;

    open spec fn view(&self) -> ConfirmActionView {
        match self {
            ConfirmAction::FindCode(id) => ConfirmActionView::FindCode(*id),
            ConfirmAction::StoreTries(count) => ConfirmActionView::StoreTries(*count),
            ConfirmAction::FindAccount(email) => ConfirmActionView::FindAccount(email@),
            ConfirmAction::Update(change) => ConfirmActionView::Update(change@),
            ConfirmAction::ExpireCodes(email) => ConfirmActionView::ExpireCodes(email@),
            ConfirmAction::Commit => ConfirmActionView::Commit,
            ConfirmAction::Rollback => ConfirmActionView::Rollback,
            ConfirmAction::Finish(Ok(())) => ConfirmActionView::Finish(Ok(())),
            ConfirmAction::Finish(Err(e)) => ConfirmActionView::Finish(Err(e@)),
        }
    }
}

/// What the surroundings report back to a confirmation.
#[derive(Debug, Clone, PartialEq, Eq)]
pub enum ConfirmEvent {
    /// The code that is stored under the identifier, if there is one.
    Code(Option<VerificationCode>),
    /// The count of wrong attempts was stored.
    TriesStored,
    /// Whether there is an account with the address; the transaction is
    /// open.
    Account(bool),
    /// The account was changed.
    Updated,
    /// The codes have expired.
    CodesExpired,
    /// The transaction was committed.
    Committed,
    /// The transaction was rolled back.
    RolledBack,
    /// What was asked for failed, with this error.
    Failed(AppError),
}

/// The model of a [`ConfirmEvent`].
pub enum ConfirmEventView {
    Code(Option<VerificationCodeView>),
    TriesStored,
    Account(bool),
    Updated,
    CodesExpired,
    Committed,
    RolledBack,
    Failed(AppErrorView),
}

impl View for ConfirmEvent {
    type V = ConfirmEventView;

    open spec fn view(&self) -> ConfirmEventView {
        match self {
            ConfirmEvent::Code(found) => ConfirmEventView::Code(found_view(*found)),
            ConfirmEvent::TriesStored => ConfirmEventView::TriesStored,
            ConfirmEvent::Account(found) => ConfirmEventView::Account(*found),
            ConfirmEvent::Updated => ConfirmEventView::Updated,
            ConfirmEvent::CodesExpired => ConfirmEventView::CodesExpired,
            ConfirmEvent::Committed => ConfirmEventView::Committed,
            ConfirmEvent::RolledBack => ConfirmEventView::RolledBack,
            ConfirmEvent::Failed(e) => ConfirmEventView::Failed(e@),
        }
    }
}

/// The failure that an event stands for where it is not what the
/// confirmation waits for: the failure that it reports, or an internal
/// error where it reports something out of turn.
pub open spec fn confirm_failure(event: ConfirmEventView) -> AppErrorView {
    match event {
        ConfirmEventView::Failed(e) => e,
        _ => AppErrorView::InternalServerError,
    }
}

/// The confirmation at `step`.
pub open spec fn confirming_at(confirming: ConfirmingView, step: ConfirmStepView) -> ConfirmingView {
    ConfirmingView { step, ..confirming }
}

/// The confirmation ends with `outcome`.
pub open spec fn confirm_finished(
    confirming: ConfirmingView,
    outcome: Result<(), AppErrorView>,
) -> (ConfirmingView, ConfirmActionView) {
    (confirming_at(confirming, ConfirmStepView::Done), ConfirmActionView::Finish(outcome))
}

/// The confirmation gives up inside the transaction: it rolls back and will
/// end with `error`.
pub open spec fn confirm_undone(confirming: ConfirmingView, error: AppErrorView) -> (
    ConfirmingView,
    ConfirmActionView,
) {
    (confirming_at(confirming, ConfirmStepView::Rollback(error)), ConfirmActionView::Rollback)
}

/// The beginning of a confirmation whose payload raised these complaints:
/// with complaints it ends at once, without them it asks for the code.
pub open spec fn confirm_begun(
    complaints: Seq<FieldErrorView>,
    id: u128,
    code: Seq<char>,
    email: Option<Seq<char>>,
    password: Option<Seq<char>>,
    now: i64,
) -> (ConfirmingView, ConfirmActionView) {
    let confirming = ConfirmingView { step: ConfirmStepView::Code, id, code, email, password, now };
    match validated(complaints) {
        Err(e) => confirm_finished(confirming, Err(e)),
        Ok(()) => (confirming, ConfirmActionView::FindCode(id)),
    }
}

/// One step of a confirmation. `hash` is what the hasher made of the new
/// password, where the step asked it to.
///
/// The code is judged as [`judged`] says. A wrong attempt is counted: the
/// count is stored outside of any transaction, and only then is the caller
/// told to try again. The right code opens a transaction in which the
/// account is looked up and changed and the codes of the address expire;
/// the confirmation succeeds only after the commit. An account that is
/// missing, and any failure inside the transaction, rolls it back.
pub open spec fn confirm_advanced(
    confirming: ConfirmingView,
    event: ConfirmEventView,
    hash: Option<Seq<char>>,
) -> (ConfirmingView, ConfirmActionView) {
    match (confirming.step, event) {
        (ConfirmStepView::Code, ConfirmEventView::Code(found)) => match judged(
            found,
            confirming.code,
            confirming.email,
            confirming.password,
            confirming.now,
        ) {
            Ok(confirmation) => (
                confirming_at(confirming, ConfirmStepView::Account(confirmation.email)),
                ConfirmActionView::FindAccount(confirmation.account),
            ),
            Err(rejection) => match rejection.wrong_tries {
                Some(count) => (
                    confirming_at(confirming, ConfirmStepView::Tries(rejection.error)),
                    ConfirmActionView::StoreTries(count),
                ),
                None => confirm_finished(confirming, Err(rejection.error)),
            },
        },
        (ConfirmStepView::Tries(error), ConfirmEventView::TriesStored) => confirm_finished(
            confirming,
            Err(error),
        ),
        (ConfirmStepView::Account(email), ConfirmEventView::Account(true)) => match (
            confirming.password,
            hash,
        ) {
            (Some(_), Some(hashed)) => (
                confirming_at(confirming, ConfirmStepView::Update(email)),
                ConfirmActionView::Update(UserChangeView::Password(hashed)),
            ),
            (Some(_), None) => confirm_undone(confirming, AppErrorView::InternalServerError),
            (None, _) => (
                confirming_at(confirming, ConfirmStepView::Update(email)),
                ConfirmActionView::Update(UserChangeView::Email(email)),
            ),
        },
        (ConfirmStepView::Account(_), ConfirmEventView::Account(false)) => confirm_undone(
            confirming,
            AppErrorView::NotFound,
        ),
        (ConfirmStepView::Update(email), ConfirmEventView::Updated) => (
            confirming_at(confirming, ConfirmStepView::Expiry),
            ConfirmActionView::ExpireCodes(email),
        ),
        (ConfirmStepView::Expiry, ConfirmEventView::CodesExpired) => (
            confirming_at(confirming, ConfirmStepView::Commit),
            ConfirmActionView::Commit,
        ),
        (ConfirmStepView::Commit, ConfirmEventView::Committed) => confirm_finished(
            confirming,
            Ok(()),
        ),
        (ConfirmStepView::Rollback(error), _) => confirm_finished(confirming, Err(error)),
        (ConfirmStepView::Account(_), _) => confirm_undone(confirming, confirm_failure(event)),
        (ConfirmStepView::Update(_), _) => confirm_undone(confirming, confirm_failure(event)),
        (ConfirmStepView::Expiry, _) => confirm_undone(confirming, confirm_failure(event)),
        (ConfirmStepView::Commit, _) => confirm_undone(confirming, confirm_failure(event)),
        (ConfirmStepView::Done, _) => confirm_finished(
            confirming,
            Err(AppErrorView::InternalServerError),
        ),
        _ => confirm_finished(confirming, Err(confirm_failure(event))),
    }
}

/// What the hasher makes of the new password of a confirmation under a
/// salt: the hash, or nothing where there is no new password or the hasher
/// makes no hash.
pub open spec fn hash_of(password: Option<Seq<char>>, salt: Seq<char>) -> Option<Seq<char>> {
    match password {
        Some(password) => match hashed(password, salt) {
            Ok(hash) => Some(hash),
            Err(_) => None,
        },
        None => None,
    }
}

/// Whether a hash is owed for the new password of a confirmation: there is
/// one, of at most `LONGEST_PASSWORD` characters.
pub open spec fn hashable(password: Option<Seq<char>>) -> bool {
    match password {
        Some(password) => password.len() <= LONGEST_PASSWORD,
        None => false,
    }
}

/// Whether the step that answers `event` changes the password of the
/// account, and so hashes the new one: it is the step that learns that the
/// account exists, in a confirmation with a new password.
pub open spec fn hashes(confirming: ConfirmingView, event: ConfirmEventView) -> bool {
    confirming.step is Account && event == ConfirmEventView::Account(true)
        && confirming.password is Some
}

/// Whether `hash` can be what the hasher made of the new password of the
/// confirmation: a hash that came back matches the password.
pub open spec fn hashed_for(confirming: ConfirmingView, hash: Option<Seq<char>>) -> bool {
    match (confirming.password, hash) {
        (Some(password), Some(hashed)) => password_matches(hashed, password),
        _ => true,
    }
}

fn confirm_failure_of(event: ConfirmEvent) -> (error: AppError)
    ensures
        error@ == confirm_failure(event@),
{
    match event {
        ConfirmEvent::Failed(e) => e,
        _ => AppError::InternalServerError,
    }
}

impl Confirming {
    fn to(self, step: ConfirmStep) -> (confirming: Confirming)
        ensures
            confirming@ == confirming_at(self@, step@),
    {
        Confirming {
            step,
            id: self.id,
            code: self.code,
            email: self.email,
            password: self.password,
            now: self.now,
        }
    }

    fn finish(self, outcome: Result<(), AppError>) -> (next: (Confirming, ConfirmAction))
        ensures
            (next.0@, next.1@) == confirm_finished(
                self@,
                match outcome {
                    Ok(()) => Ok(()),
                    Err(e) => Err(e@),
                },
            ),
    {
        (self.to(ConfirmStep::Done), ConfirmAction::Finish(outcome))
    }

    fn undo(self, error: AppError) -> (next: (Confirming, ConfirmAction))
        ensures
            (next.0@, next.1@) == confirm_undone(self@, error@),
    {
        (self.to(ConfirmStep::Rollback(error)), ConfirmAction::Rollback)
    }

    fn begin(
        outcome: Result<(), AppError>,
        id: u128,
        code: String,
        email: Option<String>,
        password: Option<String>,
        now: i64,
    ) -> (next: (Confirming, ConfirmAction))
        ensures
            (next.0@, next.1@) == ({
                let confirming = ConfirmingView {
                    step: ConfirmStepView::Code,
                    id,
                    code: code@,
                    email: optional_view(email),
                    password: optional_view(password),
                    now,
                };
                match outcome {
                    Err(e) => confirm_finished(confirming, Err(e@)),
                    Ok(()) => (confirming, ConfirmActionView::FindCode(id)),
                }
            }),
    {
        let confirming = Confirming { step: ConfirmStep::Code, id, code, email, password, now };
        match outcome {
            Err(e) => confirming.finish(Err(e)),
            Ok(()) => (confirming, ConfirmAction::FindCode(id)),
        }
    }

    /// Takes the confirmation one step further with a hash that is given:
    /// `hash` is what the hasher made of the new password, or nothing where
    /// it made nothing. The hash is read only by the step that changes the
    /// password of the account.
    pub fn advance_with(self, event: ConfirmEvent, hash: Option<String>) -> (next: (
        Confirming,
        ConfirmAction,
    ))
        ensures
            (next.0@, next.1@) == confirm_advanced(self@, event@, optional_view(hash)),
    {
        let Confirming { step, id, code, email, password, now } = self;
        match step {
            ConfirmStep::Code => {
                let confirming = Confirming { step: ConfirmStep::Done, id, code, email, password, now };
                match event {
                    ConfirmEvent::Code(found) => {
                        match UserService::_verify_code(
                            found,
                            confirming.code.as_str(),
                            copy_optional(&confirming.email),
                            copy_optional(&confirming.password),
                            now,
                        ) {
                            Ok(confirmation) => (
                                confirming.to(ConfirmStep::Account(confirmation.email)),
                                ConfirmAction::FindAccount(confirmation.account),
                            ),
                            Err(rejection) => match rejection.wrong_tries {
                                Some(count) => (
                                    confirming.to(ConfirmStep::Tries(rejection.error)),
                                    ConfirmAction::StoreTries(count),
                                ),
                                None => confirming.finish(Err(rejection.error)),
                            },
                        }
                    },
                    other => {
                        let error = confirm_failure_of(other);
                        confirming.finish(Err(error))
                    },
                }
            },
            ConfirmStep::Tries(error) => {
                let confirming = Confirming { step: ConfirmStep::Done, id, code, email, password, now };
                match event {
                    ConfirmEvent::TriesStored => confirming.finish(Err(error)),
                    other => {
                        let error = confirm_failure_of(other);
                        confirming.finish(Err(error))
                    },
                }
            },
            ConfirmStep::Account(address) => {
                let confirming = Confirming { step: ConfirmStep::Done, id, code, email, password, now };
                match event {
                    ConfirmEvent::Account(true) => {
                        if confirming.password.is_some() {
                            match hash {
                                Some(hash) => (
                                    confirming.to(ConfirmStep::Update(address)),
                                    ConfirmAction::Update(UserChange::Password(hash)),
                                ),
                                None => confirming.undo(AppError::InternalServerError),
                            }
                        } else {
                            let change = UserChange::Email(address.clone());
                            (confirming.to(ConfirmStep::Update(address)), ConfirmAction::Update(change))
                        }
                    },
                    ConfirmEvent::Account(false) => confirming.undo(AppError::NotFound),
                    other => {
                        let error = confirm_failure_of(other);
                        confirming.undo(error)
                    },
                }
            },
            ConfirmStep::Update(address) => {
                let confirming = Confirming { step: ConfirmStep::Done, id, code, email, password, now };
                match event {
                    ConfirmEvent::Updated => (
                        confirming.to(ConfirmStep::Expiry),
                        ConfirmAction::ExpireCodes(address),
                    ),
                    other => {
                        let error = confirm_failure_of(other);
                        confirming.undo(error)
                    },
                }
            },
            ConfirmStep::Expiry => {
                let confirming = Confirming { step: ConfirmStep::Done, id, code, email, password, now };
                match event {
                    ConfirmEvent::CodesExpired => (
                        confirming.to(ConfirmStep::Commit),
                        ConfirmAction::Commit,
                    ),
                    other => {
                        let error = confirm_failure_of(other);
                        confirming.undo(error)
                    },
                }
            },
            ConfirmStep::Commit => {
                let confirming = Confirming { step: ConfirmStep::Done, id, code, email, password, now };
                match event {
                    ConfirmEvent::Committed => confirming.finish(Ok(())),
                    other => {
                        let error = confirm_failure_of(other);
                        confirming.undo(error)
                    },
                }
            },
            ConfirmStep::Rollback(error) => {
                let confirming = Confirming { step: ConfirmStep::Done, id, code, email, password, now };
                confirming.finish(Err(error))
            },
            ConfirmStep::Done => {
                let confirming = Confirming { step: ConfirmStep::Done, id, code, email, password, now };
                confirming.finish(Err(AppError::InternalServerError))
            },
        }
    }

    /// Whether the step that answers `event` changes the password of the
    /// account, and so hashes the new one.
    fn hashes_for(&self, event: &ConfirmEvent) -> (yes: bool)
        ensures
            yes == hashes(self@, event@),
    {
        match &self.step {
            ConfirmStep::Account(_) => match event {
                ConfirmEvent::Account(found) => *found && self.password.is_some(),
                _ => false,
            },
            _ => false,
        }
    }

    /// Takes the confirmation one step further: folds `event` into its
    /// state and says what the surroundings are to do next. Where the step
    /// changes the password of the account, it hashes the new password
    /// under a fresh salt; a hash is owed for every password of at most
    /// `LONGEST_PASSWORD` characters, and the hash that the account gets
    /// matches the new password.
    pub fn advance(self, event: ConfirmEvent) -> (next: (Confirming, ConfirmAction))
        ensures
            exists|salt: Seq<char>|
                (next.0@, next.1@) == confirm_advanced(
                    self@,
                    event@,
                    #[trigger] hash_of(self@.password, salt),
                ),
            next.1@ matches ConfirmActionView::Update(UserChangeView::Password(hash))
                ==> hashed_for(self@, Some(hash)) && self@.password is Some,
            hashes(self@, event@) && hashable(self@.password) ==> next.1@ is Update,
    {
        if self.hashes_for(&event) {
            let outcome = match &self.password {
                Some(password) => hash_password(password.as_str()),
                None => Err(AppError::InternalServerError),
            };
            let ghost salt = choose|salt: Seq<char>|
                outcome_view(outcome) == #[trigger] hashed(self@.password->0, salt);
            let hash = match outcome {
                Ok(hash) => Some(hash),
                Err(_) => None,
            };
            let ghost before = self@;
            let ghost reported = event@;
            let next = self.advance_with(event, hash);
            assert((next.0@, next.1@) == confirm_advanced(
                before,
                reported,
                hash_of(before.password, salt),
            ));
            next
        } else {
            let ghost before = self@;
            let ghost reported = event@;
            let next = self.advance_with(event, None);
            assert((next.0@, next.1@) == confirm_advanced(
                before,
                reported,
                hash_of(before.password, Seq::empty()),
            ));
            next
        }
    }
}

impl UserService {
    /// Begins the confirmation of a change of password at `now`. A payload
    /// that breaks its rules ends the confirmation before the code is
    /// looked at. The surroundings do what the action says and come back
    /// to [`Confirming::advance`] with the event that reports it, until the
    /// action is to finish.
    pub fn confirm_password_reset(payload: PasswordResetPayload, now: i64) -> (next: (
        Confirming,
        ConfirmAction,
    ))
        ensures
            (next.0@, next.1@) == confirm_begun(
                code_complaint(payload.code@) + password_complaint(payload.password@),
                payload.id,
                payload.code@,
                None,
                Some(payload.password@),
                now,
            ),
    {
        let outcome = payload.validate();
        Confirming::begin(outcome, payload.id, payload.code, None, Some(payload.password), now)
    }

    /// Begins the confirmation of a change of address by the user with
    /// these claims at `now`. A payload that breaks its rule ends the
    /// confirmation before the code is looked at.
    pub fn confirm_email_change(claims: &Claims, payload: EmailResetPayload, now: i64) -> (next: (
        Confirming,
        ConfirmAction,
    ))
        ensures
            (next.0@, next.1@) == confirm_begun(
                code_complaint(payload.code@),
                payload.id,
                payload.code@,
                Some(claims@.email),
                None,
                now,
            ),
    {
        let outcome = payload.validate();
        Confirming::begin(outcome, payload.id, payload.code, Some(claims.email.clone()), None, now)
    }
}

/// A locked code ends the confirmation at once: with three wrong attempts
/// on record and the expiry not yet passed, the confirmation answers that
/// there were too many attempts, whatever code is presented, and asks for
/// nothing to be written.
pub proof fn locked_code_ends_the_confirmation(
    confirming: ConfirmingView,
    record: VerificationCodeView,
    hash: Option<Seq<char>>,
)
    requires
        confirming.step == ConfirmStepView::Code,
        record.wrong_tries >= MAX_WRONG_TRIES,
        confirming.now <= record.expiry_date,
    ensures
        confirm_advanced(confirming, ConfirmEventView::Code(Some(record)), hash)
            == confirm_finished(confirming, Err(AppErrorView::TooManyAttempts)),
{
}

/// A wrong attempt is stored before it is answered. Below the limit and
/// before the expiry, a code that does not match makes the confirmation ask
/// for the raised count to be stored, outside of any transaction, and only
/// the report of that lets it tell the caller to try again.
pub proof fn wrong_attempt_is_stored_before_the_answer(
    confirming: ConfirmingView,
    record: VerificationCodeView,
    hash: Option<Seq<char>>,
)
    requires
        confirming.step == ConfirmStepView::Code,
        record.wrong_tries < MAX_WRONG_TRIES,
        confirming.now <= record.expiry_date,
        !password_matches(record.code, confirming.code),
    ensures
        ({
            let counted = confirm_advanced(confirming, ConfirmEventView::Code(Some(record)), hash);
            let answered = confirm_advanced(counted.0, ConfirmEventView::TriesStored, hash);
            &&& counted.1 == ConfirmActionView::StoreTries((record.wrong_tries + 1) as u16)
            &&& answered.1 == ConfirmActionView::Finish(
                Err(AppErrorView::Custom("Ошибка, попробуйте еще раз"@)),
            )
        }),
{
}

/// A confirmation changes the account, lets the codes expire and commits,
/// in this order and in one transaction: the account is changed only in
/// answer to its being found, the codes expire only in answer to the
/// change, the transaction is committed exactly in answer to the expiry,
/// and the confirmation succeeds exactly in answer to the commit.
pub proof fn confirmation_writes_in_order(
    confirming: ConfirmingView,
    event: ConfirmEventView,
    hash: Option<Seq<char>>,
)
    ensures
        confirm_advanced(confirming, event, hash).1 is Update ==> confirming.step is Account
            && event == ConfirmEventView::Account(true),
        confirm_advanced(confirming, event, hash).1 is ExpireCodes ==> confirming.step is Update
            && event == ConfirmEventView::Updated,
        confirm_advanced(confirming, event, hash).1 == ConfirmActionView::Commit
            <==> confirming.step == ConfirmStepView::Expiry && event
            == ConfirmEventView::CodesExpired,
        confirm_advanced(confirming, event, hash).1 == ConfirmActionView::Finish(Ok(()))
            <==> confirming.step == ConfirmStepView::Commit && event
            == ConfirmEventView::Committed,
{
}

/// A failure inside the transaction of a confirmation undoes it: whatever
/// fails between the lookup of the account and the commit, and also where
/// the account is missing, the confirmation rolls the transaction back and
/// then ends with the failure, whatever the rollback reports.
pub proof fn failure_inside_confirmation_rolls_back(
    confirming: ConfirmingView,
    error: AppErrorView,
    report: ConfirmEventView,
    hash: Option<Seq<char>>,
)
    requires
        confirming.step is Account || confirming.step is Update || confirming.step
            == ConfirmStepView::Expiry || confirming.step == ConfirmStepView::Commit,
    ensures
        confirm_advanced(confirming, ConfirmEventView::Failed(error), hash) == confirm_undone(
            confirming,
            error,
        ),
        confirming.step is Account ==> confirm_advanced(
            confirming,
            ConfirmEventView::Account(false),
            hash,
        ) == confirm_undone(confirming, AppErrorView::NotFound),
        confirm_advanced(confirm_undone(confirming, error).0, report, hash) == confirm_finished(
            confirming,
            Err(error),
        ),
{
}

} // verus!

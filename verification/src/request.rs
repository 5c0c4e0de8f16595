//! The request for a one-time code: the code is stored and mailed in one
//! transaction, or not at all.

use crate::error::{outcome_view, AppError, AppErrorView};
use crate::security::{hash_password, hashed, password_matches};
use crate::smtp::{
    email_code_mail, password_code_mail, send_code_to_update_email, send_code_to_update_password,
    CodeEmailContext, CodeEmailContextView,
};
use crate::text::{decimal, lowercase, to_lowercase};
use crate::user::UserService;
use crate::verification::{random_u32, six_digits, verification_code, CODE_LIFETIME};
use vstd::prelude::*;

verus! {

/// The refusal to move an account to an address that another account has.
pub open spec fn address_taken() -> AppErrorView {
    AppErrorView::Custom("Пользователь с такой почтой уже существует!"@)
}

/// What a code is asked for.
#[derive(Clone, Copy, Debug, PartialEq, Eq, Structural)]
pub enum Purpose {
    /// The change of the password of the account with the address.
    Password,
    /// The move of the caller's account to the address.
    Email,
}

/// A code that is to be stored. The persistence layer gives it its
/// identity.
#[derive(Debug, Clone, PartialEq, Eq)]
pub struct NewCode {
    /// The address that the code is mailed to, in lower case.
    pub email: String,
    /// The salted hash of the code.
    pub code: String,
    /// The instant, in microseconds since the Unix epoch, after which the
    /// code can no longer be confirmed.
    pub expiry_date: i64,
    /// How often a wrong code was presented: not once yet.
    pub wrong_tries: u16,
}

/// The model of a [`NewCode`].
pub struct NewCodeView {
    pub email: Seq<char>,
    pub code: Seq<char>,
    pub expiry_date: i64,
    pub wrong_tries: u16,
}

impl View for NewCode {
    type V = NewCodeView;

    open spec fn view(&self) -> NewCodeView {
        NewCodeView {
            email: self.email@,
            code: self.code@,
            expiry_date: self.expiry_date,
            wrong_tries: self.wrong_tries,
        }
    }
}

/// What a request for a code waits for.
#[derive(Debug, Clone, PartialEq, Eq)]
pub enum RequestStep {
    /// Whether an account has the address.
    Account,
    /// The expiring of the codes that the address had, in a transaction
    /// that stays open; this code is stored next, and this mail sent after
    /// it.
    Expiring(NewCode, CodeEmailContext),
    /// The storing of the code; this mail is sent next.
    Storing(CodeEmailContext),
    /// The sending of the mail; the code was stored under this identifier.
    Mailing(u128),
    /// The commit of the transaction.
    Commit(u128),
    /// The rollback of the transaction, after this failure.
    Rollback(AppError),
    /// Nothing: the request is over.
    Done,
}

/// The model of a [`RequestStep`].
pub enum RequestStepView {
    Account,
    Expiring(NewCodeView, CodeEmailContextView),
    Storing(CodeEmailContextView),
    Mailing(u128),
    Commit(u128),
    Rollback(AppErrorView),
    Done,
}

impl View for RequestStep {
    type V = RequestStepView;

    open spec fn view(&self) -> RequestStepView {
        match self {
            RequestStep::Account => RequestStepView::Account,
            RequestStep::Expiring(code, mail) => RequestStepView::Expiring(code@, mail@),
            RequestStep::Storing(mail) => RequestStepView::Storing(mail@),
            RequestStep::Mailing(id) => RequestStepView::Mailing(*id),
            RequestStep::Commit(id) => RequestStepView::Commit(*id),
            RequestStep::Rollback(e) => RequestStepView::Rollback(e@),
            RequestStep::Done => RequestStepView::Done,
        }
    }
}

/// The request for one code between two steps.
#[derive(Debug, Clone, PartialEq, Eq)]
pub struct Requesting {
    pub step: RequestStep,
    pub purpose: Purpose,
    /// The address as it was given.
    pub email: String,
    /// The instant, in microseconds since the Unix epoch, after which the
    /// code can no longer be confirmed.
    pub expiry_date: i64,
}

/// The model of a [`Requesting`].
pub struct RequestingView {
    pub step: RequestStepView,
    pub purpose: Purpose,
    pub email: Seq<char>,
    pub expiry_date: i64,
}

impl View for Requesting {
    type V = RequestingView;

    open spec fn view(&self) -> RequestingView {
        RequestingView {
            step: self.step@,
            purpose: self.purpose,
            email: self.email@,
            expiry_date: self.expiry_date,
        }
    }
}

/// What a request for a code asks its surroundings to do next.
#[derive(Debug, PartialEq, Eq)]
pub enum RequestAction {
    /// Find whether an account has this address.
    FindAccount(String),
    /// Open a transaction; in it, let every code for this address expire
    /// that can still be confirmed.
    ExpireCodes(String),
    /// Insert this code, in the transaction.
    Insert(NewCode),
    /// Render this mail and hand it to the mail transport.
    Mail(CodeEmailContext),
    /// Commit the transaction.
    Commit,
    /// Roll the transaction back.
    Rollback,
    /// Answer the caller: with the identifier of the code, or with the
    /// failure.
    Finish(Result<u128, AppError>),
}

/// The model of a [`RequestAction`].
pub enum RequestActionView {
    FindAccount(Seq<char>),
    ExpireCodes(Seq<char>),
    Insert(NewCodeView),
    Mail(CodeEmailContextView),
    Commit,
    Rollback,
    Finish(Result<u128, AppErrorView>),
}

impl View for RequestAction {
    type V = RequestActionView;

    open spec fn view(&self) -> RequestActionView {
        match self {
            RequestAction::FindAccount(email) => RequestActionView::FindAccount(email@),
            RequestAction::ExpireCodes(email) => RequestActionView::ExpireCodes(email@),
            RequestAction::Insert(code) => RequestActionView::Insert(code@),
            RequestAction::Mail(mail) => RequestActionView::Mail(mail@),
            RequestAction::Commit => RequestActionView::Commit,
            RequestAction::Rollback => RequestActionView::Rollback,
            RequestAction::Finish(Ok(id)) => RequestActionView::Finish(Ok(*id)),
            RequestAction::Finish(Err(e)) => RequestActionView::Finish(Err(e@)),
        }
    }
}

/// What the surroundings report back to a request for a code.
#[derive(Debug, Clone, PartialEq, Eq)]
pub enum RequestEvent {
    /// Whether an account has the address.
    Account(bool),
    /// The codes that the address had have expired; the transaction is
    /// open.
    CodesExpired,
    /// The code was stored under this identifier.
    Stored(u128),
    /// The mail transport took the mail.
    Mailed,
    /// The transaction was committed.
    Committed,
    /// The transaction was rolled back.
    RolledBack,
    /// What was asked for failed, with this error.
    Failed(AppError),
}

/// The model of a [`RequestEvent`].
pub enum RequestEventView {
    Account(bool),
    CodesExpired,
    Stored(u128),
    Mailed,
    Committed,
    RolledBack,
    Failed(AppErrorView),
}

impl View for RequestEvent {
    type V = RequestEventView;

    open spec fn view(&self) -> RequestEventView {
        match self {
            RequestEvent::Account(found) => RequestEventView::Account(*found),
            RequestEvent::CodesExpired => RequestEventView::CodesExpired,
            RequestEvent::Stored(id) => RequestEventView::Stored(*id),
            RequestEvent::Mailed => RequestEventView::Mailed,
            RequestEvent::Committed => RequestEventView::Committed,
            RequestEvent::RolledBack => RequestEventView::RolledBack,
            RequestEvent::Failed(e) => RequestEventView::Failed(e@),
        }
    }
}

/// The failure that an event stands for where it is not what the request
/// waits for: the failure that it reports, or an internal error where it
/// reports something out of turn.
pub open spec fn request_failure(event: RequestEventView) -> AppErrorView {
    match event {
        RequestEventView::Failed(e) => e,
        _ => AppErrorView::InternalServerError,
    }
}

/// The request at `step`.
pub open spec fn requesting_at(requesting: RequestingView, step: RequestStepView) -> RequestingView {
    RequestingView { step, ..requesting }
}

/// The request ends with `outcome`.
pub open spec fn request_finished(
    requesting: RequestingView,
    outcome: Result<u128, AppErrorView>,
) -> (RequestingView, RequestActionView) {
    (requesting_at(requesting, RequestStepView::Done), RequestActionView::Finish(outcome))
}

/// The request gives up inside the transaction: it rolls back and will end
/// with `error`.
pub open spec fn request_undone(requesting: RequestingView, error: AppErrorView) -> (
    RequestingView,
    RequestActionView,
) {
    (requesting_at(requesting, RequestStepView::Rollback(error)), RequestActionView::Rollback)
}

/// Why a request is refused for what was found of the account, if it is: a
/// password can be changed only for an account that exists, an account can
/// move only to an address that no account has.
pub open spec fn request_refusal(purpose: Purpose, account_found: bool) -> Option<AppErrorView> {
    match purpose {
        Purpose::Password => if account_found {
            None
        } else {
            Some(AppErrorView::NotFound)
        },
        Purpose::Email => if account_found {
            Some(address_taken())
        } else {
            None
        },
    }
}

/// The mail that carries `code` to `email` for the purpose.
pub open spec fn code_mail(purpose: Purpose, code: Seq<char>, email: Seq<char>) -> CodeEmailContextView {
    match purpose {
        Purpose::Password => password_code_mail(code, email),
        Purpose::Email => email_code_mail(code, email),
    }
}

/// Whether the expiry of a code that is asked for at `now` can be written
/// down.
pub open spec fn in_time(now: i64) -> bool {
    now + CODE_LIFETIME <= i64::MAX
}

/// The beginning of a request: it asks whether an account has the address,
/// in lower case. The code will expire `CODE_LIFETIME` after `now`. At an
/// instant so late that this expiry cannot be written down, the request
/// ends at once with an internal error.
pub open spec fn request_begun(purpose: Purpose, email: Seq<char>, now: i64) -> (
    RequestingView,
    RequestActionView,
) {
    if in_time(now) {
        (
            RequestingView {
                step: RequestStepView::Account,
                purpose,
                email,
                expiry_date: (now + CODE_LIFETIME) as i64,
            },
            RequestActionView::FindAccount(lowercase(email)),
        )
    } else {
        (
            RequestingView { step: RequestStepView::Done, purpose, email, expiry_date: now },
            RequestActionView::Finish(Err(AppErrorView::InternalServerError)),
        )
    }
}

/// One step of a request for a code. `draw` is the random number that was
/// drawn and what the hasher made of its six digits, where the step asked
/// for them; it is `None` where the hasher failed.
///
/// A request that is refused ends before anything is written. Else a
/// transaction is opened in which first the codes that the address had
/// expire and then the new code is stored, under the address in lower case
/// and without a wrong attempt; then the code is mailed in plain to the
/// address as it was given; and the transaction is committed only after the
/// transport took the mail. If the mail fails, nothing of it happens.
pub open spec fn request_advanced(
    requesting: RequestingView,
    event: RequestEventView,
    draw: Option<(u32, Seq<char>)>,
) -> (RequestingView, RequestActionView) {
    match (requesting.step, event) {
        (RequestStepView::Account, RequestEventView::Account(found)) => match request_refusal(
            requesting.purpose,
            found,
        ) {
            Some(e) => request_finished(requesting, Err(e)),
            None => match draw {
                Some((random, hashed)) => (
                    requesting_at(
                        requesting,
                        RequestStepView::Expiring(
                            NewCodeView {
                                email: lowercase(requesting.email),
                                code: hashed,
                                expiry_date: requesting.expiry_date,
                                wrong_tries: 0,
                            },
                            code_mail(requesting.purpose, six_digits(random), requesting.email),
                        ),
                    ),
                    RequestActionView::ExpireCodes(lowercase(requesting.email)),
                ),
                None => request_finished(requesting, Err(AppErrorView::InternalServerError)),
            },
        },
        (RequestStepView::Expiring(code, mail), RequestEventView::CodesExpired) => (
            requesting_at(requesting, RequestStepView::Storing(mail)),
            RequestActionView::Insert(code),
        ),
        (RequestStepView::Storing(mail), RequestEventView::Stored(id)) => (
            requesting_at(requesting, RequestStepView::Mailing(id)),
            RequestActionView::Mail(mail),
        ),
        (RequestStepView::Mailing(id), RequestEventView::Mailed) => (
            requesting_at(requesting, RequestStepView::Commit(id)),
            RequestActionView::Commit,
        ),
        (RequestStepView::Commit(id), RequestEventView::Committed) => request_finished(
            requesting,
            Ok(id),
        ),
        (RequestStepView::Rollback(error), _) => request_finished(requesting, Err(error)),
        (RequestStepView::Expiring(_, _), _) => request_undone(
            requesting,
            request_failure(event),
        ),
        (RequestStepView::Storing(_), _) => request_undone(requesting, request_failure(event)),
        (RequestStepView::Mailing(_), _) => request_undone(requesting, request_failure(event)),
        (RequestStepView::Commit(_), _) => request_undone(requesting, request_failure(event)),
        (RequestStepView::Done, _) => request_finished(
            requesting,
            Err(AppErrorView::InternalServerError),
        ),
        _ => request_finished(requesting, Err(request_failure(event))),
    }
}

/// The draw that a random number and a salt make: the number and the hash of
/// its six digits under the salt, or nothing where the hasher makes none.
pub open spec fn draw_of(random: u32, salt: Seq<char>) -> Option<(u32, Seq<char>)> {
    match hashed(six_digits(random), salt) {
        Ok(hash) => Some((random, hash)),
        Err(_) => None,
    }
}

/// Whether the step that answers `event` stores a code, and so draws one:
/// it is the step that learns what was found of the account, and the
/// request is not refused for it.
pub open spec fn draws(requesting: RequestingView, event: RequestEventView) -> bool {
    requesting.step == RequestStepView::Account && (event matches RequestEventView::Account(
        found,
    ) && request_refusal(requesting.purpose, found) is None)
}

proof fn six_digits_are_six(random: u32)
    ensures
        six_digits(random).len() == 6,
{
    reveal_with_fuel(decimal, 7);
}

/// Whether `draw` can be what was drawn and hashed: a hash that came back
/// matches the six digits of the random number.
pub open spec fn drawn(draw: Option<(u32, Seq<char>)>) -> bool {
    match draw {
        Some((random, hashed)) => password_matches(hashed, six_digits(random)),
        None => true,
    }
}

fn request_failure_of(event: RequestEvent) -> (error: AppError)
    ensures
        error@ == request_failure(event@),
{
    match event {
        RequestEvent::Failed(e) => e,
        _ => AppError::InternalServerError,
    }
}

fn refusal(purpose: Purpose, account_found: bool) -> (error: Option<AppError>)
    ensures
        match error {
            Some(e) => request_refusal(purpose, account_found) == Some(e@),
            None => request_refusal(purpose, account_found) is None,
        },
{
    match purpose {
        Purpose::Password => if account_found {
            None
        } else {
            Some(AppError::NotFound)
        },
        Purpose::Email => if account_found {
            Some(AppError::Custom(String::from_str("Пользователь с такой почтой уже существует!")))
        } else {
            None
        },
    }
}

fn mail_for(purpose: Purpose, code: String, email: String) -> (mail: CodeEmailContext)
    ensures
        mail@ == code_mail(purpose, code@, email@),
{
    match purpose {
        Purpose::Password => send_code_to_update_password(code, email),
        Purpose::Email => send_code_to_update_email(code, email),
    }
}

impl Requesting {
    fn to(self, step: RequestStep) -> (requesting: Requesting)
        ensures
            requesting@ == requesting_at(self@, step@),
    {
        Requesting {
            step,
            purpose: self.purpose,
            email: self.email,
            expiry_date: self.expiry_date,
        }
    }

    fn finish(self, outcome: Result<u128, AppError>) -> (next: (Requesting, RequestAction))
        ensures
            (next.0@, next.1@) == request_finished(
                self@,
                match outcome {
                    Ok(id) => Ok(id),
                    Err(e) => Err(e@),
                },
            ),
    {
        (self.to(RequestStep::Done), RequestAction::Finish(outcome))
    }

    fn undo(self, error: AppError) -> (next: (Requesting, RequestAction))
        ensures
            (next.0@, next.1@) == request_undone(self@, error@),
    {
        (self.to(RequestStep::Rollback(error)), RequestAction::Rollback)
    }

    fn begin(purpose: Purpose, email: String, now: i64) -> (next: (Requesting, RequestAction))
        ensures
            (next.0@, next.1@) == request_begun(purpose, email@, now),
    {
        if now > i64::MAX - CODE_LIFETIME {
            return (
                Requesting { step: RequestStep::Done, purpose, email, expiry_date: now },
                RequestAction::Finish(Err(AppError::InternalServerError)),
            );
        }
        let address = to_lowercase(email.as_str());
        (
            Requesting {
                step: RequestStep::Account,
                purpose,
                email,
                expiry_date: now + CODE_LIFETIME,
            },
            RequestAction::FindAccount(address),
        )
    }

    /// Takes the request one step further with a draw that is given:
    /// `draw` is a random number and what the hasher made of its six digits,
    /// or nothing where the hasher made nothing. The draw is read only by the
    /// step that stores the code.
    pub fn advance_with(self, event: RequestEvent, draw: Option<(u32, String)>) -> (next: (
        Requesting,
        RequestAction,
    ))
        ensures
            (next.0@, next.1@) == request_advanced(
                self@,
                event@,
                match draw {
                    Some((random, hash)) => Some((random, hash@)),
                    None => None,
                },
            ),
    {
        let Requesting { step, purpose, email, expiry_date } = self;
        let requesting = Requesting { step: RequestStep::Done, purpose, email, expiry_date };
        match step {
            RequestStep::Account => match event {
                RequestEvent::Account(found) => match refusal(purpose, found) {
                    Some(e) => requesting.finish(Err(e)),
                    None => match draw {
                        Some((random, hash)) => {
                            let code = verification_code(random);
                            let address = to_lowercase(requesting.email.as_str());
                            let stored = NewCode {
                                email: address.clone(),
                                code: hash,
                                expiry_date,
                                wrong_tries: 0,
                            };
                            let mail = mail_for(purpose, code, requesting.email.clone());
                            (
                                requesting.to(RequestStep::Expiring(stored, mail)),
                                RequestAction::ExpireCodes(address),
                            )
                        },
                        None => requesting.finish(Err(AppError::InternalServerError)),
                    },
                },
                other => {
                    let error = request_failure_of(other);
                    requesting.finish(Err(error))
                },
            },
            RequestStep::Expiring(stored, mail) => match event {
                RequestEvent::CodesExpired => (
                    requesting.to(RequestStep::Storing(mail)),
                    RequestAction::Insert(stored),
                ),
                other => {
                    let error = request_failure_of(other);
                    requesting.undo(error)
                },
            },
            RequestStep::Storing(mail) => match event {
                RequestEvent::Stored(id) => (
                    requesting.to(RequestStep::Mailing(id)),
                    RequestAction::Mail(mail),
                ),
                other => {
                    let error = request_failure_of(other);
                    requesting.undo(error)
                },
            },
            RequestStep::Mailing(id) => match event {
                RequestEvent::Mailed => (requesting.to(RequestStep::Commit(id)), RequestAction::Commit),
                other => {
                    let error = request_failure_of(other);
                    requesting.undo(error)
                },
            },
            RequestStep::Commit(id) => match event {
                RequestEvent::Committed => requesting.finish(Ok(id)),
                other => {
                    let error = request_failure_of(other);
                    requesting.undo(error)
                },
            },
            RequestStep::Rollback(error) => requesting.finish(Err(error)),
            RequestStep::Done => requesting.finish(Err(AppError::InternalServerError)),
        }
    }

    /// Whether the step that answers `event` stores a code, and so draws
    /// one.
    fn draws_for(&self, event: &RequestEvent) -> (yes: bool)
        ensures
            yes == draws(self@, event@),
    {
        match &self.step {
            RequestStep::Account => match event {
                RequestEvent::Account(found) => refusal(self.purpose, *found).is_none(),
                _ => false,
            },
            _ => false,
        }
    }

    /// Takes the request one step further: folds `event` into its state and
    /// says what the surroundings are to do next. Where the step stores a
    /// code, it draws a random number and hashes its six digits under a
    /// fresh salt; the code is always made, and the hash that is stored
    /// matches the code that is mailed.
    pub fn advance(self, event: RequestEvent) -> (next: (Requesting, RequestAction))
        ensures
            exists|random: u32, salt: Seq<char>|
                (next.0@, next.1@) == request_advanced(
                    self@,
                    event@,
                    #[trigger] draw_of(random, salt),
                ),
            next.0@.step matches RequestStepView::Expiring(code, mail) ==> password_matches(
                code.code,
                mail.code,
            ),
            draws(self@, event@) ==> next.1@ is ExpireCodes,
    {
        if self.draws_for(&event) {
            let random = random_u32();
            let code = verification_code(random);
            proof {
                six_digits_are_six(random);
            }
            let hashed = hash_password(code.as_str());
            let ghost salt = choose|salt: Seq<char>|
                outcome_view(hashed) == #[trigger] crate::security::hashed(code@, salt);
            let draw = match hashed {
                Ok(hash) => Some((random, hash)),
                Err(_) => None,
            };
            let ghost before = self@;
            let ghost reported = event@;
            let next = self.advance_with(event, draw);
            assert((next.0@, next.1@) == request_advanced(before, reported, draw_of(random, salt)));
            next
        } else {
            let ghost before = self@;
            let ghost reported = event@;
            let next = self.advance_with(event, None);
            assert((next.0@, next.1@) == request_advanced(
                before,
                reported,
                draw_of(0, Seq::empty()),
            ));
            next
        }
    }
}

impl UserService {
    /// Begins the request for a code that confirms a new password for the
    /// account with address `email`. The code can be confirmed until
    /// `CODE_LIFETIME` after `now`. The surroundings do what the action
    /// says and come back to [`Requesting::advance`] with the event that
    /// reports it, until the action is to finish.
    pub fn request_password_reset(email: String, now: i64) -> (next: (Requesting, RequestAction))
        ensures
            (next.0@, next.1@) == request_begun(Purpose::Password, email@, now),
    {
        Requesting::begin(Purpose::Password, email, now)
    }

    /// Begins the request for a code that confirms the move of the caller's
    /// account to `new_email`. The code can be confirmed until
    /// `CODE_LIFETIME` after `now`.
    pub fn request_email_change(new_email: String, now: i64) -> (next: (Requesting, RequestAction))
        ensures
            (next.0@, next.1@) == request_begun(Purpose::Email, new_email@, now),
    {
        Requesting::begin(Purpose::Email, new_email, now)
    }
}

/// A request expires, stores, mails and commits, in this order and in one
/// transaction: the old codes expire only in answer to what was found of
/// the account, the new code is stored only in answer to their expiry, the
/// mail is sent only in answer to the stored code, the transaction is
/// committed exactly in answer to the mail that was taken, and the request
/// succeeds only in answer to the commit, with the identifier under which
/// the code was stored.
pub proof fn request_writes_in_order(
    requesting: RequestingView,
    event: RequestEventView,
    draw: Option<(u32, Seq<char>)>,
)
    ensures
        request_advanced(requesting, event, draw).1 is ExpireCodes ==> requesting.step
            == RequestStepView::Account && event is Account,
        request_advanced(requesting, event, draw).1 is Insert ==> requesting.step is Expiring
            && event == RequestEventView::CodesExpired,
        request_advanced(requesting, event, draw).1 is Mail ==> requesting.step is Storing
            && event is Stored,
        request_advanced(requesting, event, draw).1 == RequestActionView::Commit
            <==> requesting.step is Mailing && event == RequestEventView::Mailed,
        request_advanced(requesting, event, draw).1 matches RequestActionView::Finish(Ok(id))
            ==> requesting.step == RequestStepView::Commit(id) && event
            == RequestEventView::Committed,
{
}

/// If the mail fails, nothing of the request happens: a failure of the
/// transport, like any failure inside the transaction, rolls the
/// transaction back, and the request ends with that failure.
pub proof fn failed_mail_undoes_the_request(
    requesting: RequestingView,
    error: AppErrorView,
    report: RequestEventView,
    draw: Option<(u32, Seq<char>)>,
)
    requires
        requesting.step is Expiring || requesting.step is Storing || requesting.step is Mailing
            || requesting.step is Commit,
    ensures
        request_advanced(requesting, RequestEventView::Failed(error), draw) == request_undone(
            requesting,
            error,
        ),
        request_advanced(request_undone(requesting, error).0, report, draw) == request_finished(
            requesting,
            Err(error),
        ),
{
}

/// A request that is let through and whose writes all succeed ends well,
/// and this is what it wrote. `now` is any instant at which the expiry can
/// be written down, `found` what was found of the account, `random` the
/// number that was drawn and `hashed` what the hasher made of its six
/// digits, `id` the identifier that the persistence layer gave the code.
/// The codes that the address had expire first. The code is then stored
/// under the address in lower case, with a hash that matches the six
/// digits, without a wrong attempt, and with the expiry `CODE_LIFETIME`
/// after `now`. One mail carries the six digits in plain to the address as
/// it was given. The request ends with `id` after the commit.
pub proof fn request_runs_to_its_end(
    purpose: Purpose,
    email: Seq<char>,
    now: i64,
    found: bool,
    random: u32,
    hashed: Seq<char>,
    id: u128,
)
    requires
        in_time(now),
        request_refusal(purpose, found) is None,
        drawn(Some((random, hashed))),
    ensures
        ({
            let draw = Some((random, hashed));
            let asked = request_begun(purpose, email, now);
            let expiring = request_advanced(asked.0, RequestEventView::Account(found), draw);
            let storing = request_advanced(expiring.0, RequestEventView::CodesExpired, draw);
            let mailing = request_advanced(storing.0, RequestEventView::Stored(id), draw);
            let committing = request_advanced(mailing.0, RequestEventView::Mailed, draw);
            let ended = request_advanced(committing.0, RequestEventView::Committed, draw);
            &&& asked.1 == RequestActionView::FindAccount(lowercase(email))
            &&& expiring.1 == RequestActionView::ExpireCodes(lowercase(email))
            &&& storing.1 == RequestActionView::Insert(
                NewCodeView {
                    email: lowercase(email),
                    code: hashed,
                    expiry_date: (now + CODE_LIFETIME) as i64,
                    wrong_tries: 0,
                },
            )
            &&& password_matches(hashed, six_digits(random))
            &&& mailing.1 == RequestActionView::Mail(code_mail(purpose, six_digits(random), email))
            &&& code_mail(purpose, six_digits(random), email).email == email
            &&& code_mail(purpose, six_digits(random), email).code == six_digits(random)
            &&& committing.1 == RequestActionView::Commit
            &&& ended.1 == RequestActionView::Finish(Ok(id))
        }),
{
}

/// A request at an instant so late that the expiry of the code cannot be
/// written down, and a request that is refused for what was found of the
/// account, end before anything is written.
pub proof fn refused_request_writes_nothing(
    purpose: Purpose,
    email: Seq<char>,
    now: i64,
    found: bool,
    draw: Option<(u32, Seq<char>)>,
)
    ensures
        !in_time(now) ==> request_begun(purpose, email, now).1 == RequestActionView::Finish(
            Err(AppErrorView::InternalServerError),
        ),
        in_time(now) ==> (request_refusal(purpose, found) matches Some(e) ==> request_advanced(
            request_begun(purpose, email, now).0,
            RequestEventView::Account(found),
            draw,
        ).1 == RequestActionView::Finish(Err(e))),
{
}

} // verus!

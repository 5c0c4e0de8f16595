//! One-time codes: how a code is made, and how an attempt to confirm one
//! is judged.

use crate::error::{AppError, AppErrorView};
use crate::security::{password_matches, verify_password};
use crate::text::{decimal, lowercase, optional_view, to_decimal, to_lowercase};
use crate::user::UserService;
use vstd::prelude::*;

verus! {

/// Microseconds for which a verification code can be confirmed.
pub const CODE_LIFETIME: i64 = 10 * 60 * 1_000_000;

/// The number of wrong attempts after which a code is locked for good.
pub const MAX_WRONG_TRIES: u16 = 3;

/// A verification code as the persistence layer keeps it.
#[derive(Debug, Clone, PartialEq, Eq)]
pub struct VerificationCode {
    pub id: u128,
    /// The address that the code was mailed to.
    pub email: String,
    /// The salted hash of the code.
    pub code: String,
    /// The instant, in microseconds since the Unix epoch, after which the
    /// code can no longer be confirmed.
    pub expiry_date: i64,
    /// How often a wrong code was presented.
    pub wrong_tries: u16,
}

/// The model of a [`VerificationCode`].
pub struct VerificationCodeView {
    pub id: u128,
    pub email: Seq<char>,
    pub code: Seq<char>,
    pub expiry_date: i64,
    pub wrong_tries: u16,
}

impl View for VerificationCode {
    type V = VerificationCodeView;

    open spec fn view(&self) -> VerificationCodeView {
        VerificationCodeView {
            id: self.id,
            email: self.email@,
            code: self.code@,
            expiry_date: self.expiry_date,
            wrong_tries: self.wrong_tries,
        }
    }
}

/// The model of a code that may be missing.
pub open spec fn found_view(found: Option<VerificationCode>) -> Option<VerificationCodeView> {
    match found {
        Some(record) => Some(record@),
        None => None,
    }
}

/// What the right code confirms: the account is looked up by `account`;
/// its password becomes `password` where one is given, else its address
/// becomes `email`; and every code for `email` that can still be confirmed
/// expires.
#[derive(Debug, Clone, PartialEq, Eq)]
pub struct Confirmation {
    pub account: String,
    pub email: String,
    pub password: Option<String>,
}

/// The model of a [`Confirmation`].
pub struct ConfirmationView {
    pub account: Seq<char>,
    pub email: Seq<char>,
    pub password: Option<Seq<char>>,
}

impl View for Confirmation {
    type V = ConfirmationView;

    open spec fn view(&self) -> ConfirmationView {
        ConfirmationView {
            account: self.account@,
            email: self.email@,
            password: optional_view(self.password),
        }
    }
}

/// Why a code was not confirmed. Where `wrong_tries` is given, the code is
/// to be stored with that count, whatever else is undone.
#[derive(Debug, Clone, PartialEq, Eq)]
pub struct Rejection {
    pub error: AppError,
    pub wrong_tries: Option<u16>,
}

/// The model of a [`Rejection`].
pub struct RejectionView {
    pub error: AppErrorView,
    pub wrong_tries: Option<u16>,
}

impl View for Rejection {
    type V = RejectionView;

    open spec fn view(&self) -> RejectionView {
        RejectionView { error: self.error@, wrong_tries: self.wrong_tries }
    }
}

/// The model of the answer to a confirmation.
pub open spec fn answer_view(answer: Result<Confirmation, Rejection>) -> Result<
    ConfirmationView,
    RejectionView,
> {
    match answer {
        Ok(confirmation) => Ok(confirmation@),
        Err(rejection) => Err(rejection@),
    }
}

/// A rejection that leaves the code as it is.
pub open spec fn refused(error: AppErrorView) -> Result<ConfirmationView, RejectionView> {
    Err(RejectionView { error, wrong_tries: None })
}

/// The answer to the attempt to confirm a code at `now`.
///
/// A code that is missing is not found. One whose expiry has passed is
/// expired. One with three wrong attempts is locked, whatever is presented.
/// Else the presented code is checked against the stored hash: a wrong one
/// is counted and the caller told to try again; the right one confirms.
pub open spec fn judged(
    found: Option<VerificationCodeView>,
    code: Seq<char>,
    email: Option<Seq<char>>,
    password: Option<Seq<char>>,
    now: i64,
) -> Result<ConfirmationView, RejectionView> {
    match found {
        None => refused(AppErrorView::NotFound),
        Some(record) => if now > record.expiry_date {
            refused(AppErrorView::Expired)
        } else if record.wrong_tries >= MAX_WRONG_TRIES {
            refused(AppErrorView::TooManyAttempts)
        } else if password_matches(record.code, code) {
            Ok(
                ConfirmationView {
                    account: match email {
                        Some(current) => current,
                        None => lowercase(record.email),
                    },
                    email: lowercase(record.email),
                    password,
                },
            )
        } else {
            Err(
                RejectionView {
                    error: AppErrorView::Custom("Ошибка, попробуйте еще раз"@),
                    wrong_tries: Some((record.wrong_tries + 1) as u16),
                },
            )
        },
    }
}

/// The six digits that a random number stands for.
pub open spec fn six_digits(random: u32) -> Seq<char> {
    decimal((100_000 + random % 900_000) as nat)
}

/// Calls `OsRng::next_u32` on the operating system's random source. Nothing
/// is known of the value. A random source that fails is a failure of the
/// machine: the call does not return.
#[verifier::external_body]
pub(crate) fn random_u32() -> u32 {
    argon2::password_hash::rand_core::RngCore::next_u32(
        &mut argon2::password_hash::rand_core::OsRng,
    )
}

/// Writes the six-digit code that a random number stands for.
pub fn verification_code(random: u32) -> (code: String)
    ensures
        code@ == six_digits(random),
{
    let number: u32 = 100_000 + random % 900_000;
    to_decimal(number as u64)
}

impl UserService {
    /// Judges the attempt to confirm a code at `now`. `found` is what the
    /// persistence layer holds under the identifier that was presented,
    /// `code` the code that was presented. `email` is the current address of
    /// the account where the caller is known; `password_data` the new
    /// password where one is to be set.
    pub fn _verify_code(
        found: Option<VerificationCode>,
        code: &str,
        email: Option<String>,
        password_data: Option<String>,
        now: i64,
    ) -> (answer: Result<Confirmation, Rejection>)
        ensures
            answer_view(answer) == judged(
                found_view(found),
                code@,
                optional_view(email),
                optional_view(password_data),
                now,
            ),
    {
        let record = match found {
            Some(record) => record,
            None => { return Err(Rejection { error: AppError::NotFound, wrong_tries: None }); },
        };
        if now > record.expiry_date {
            return Err(Rejection { error: AppError::Expired, wrong_tries: None });
        }
        if record.wrong_tries >= MAX_WRONG_TRIES {
            return Err(Rejection { error: AppError::TooManyAttempts, wrong_tries: None });
        }
        if verify_password(record.code.as_str(), code) {
            let stored = to_lowercase(record.email.as_str());
            let account = match email {
                Some(current) => current,
                None => stored.clone(),
            };
            Ok(Confirmation { account, email: stored, password: password_data })
        } else {
            Err(
                Rejection {
                    error: AppError::Custom(String::from_str("Ошибка, попробуйте еще раз")),
                    wrong_tries: Some(record.wrong_tries + 1),
                },
            )
        }
    }
}

/// The code as it is stored after an attempt to confirm it: a wrong attempt
/// is counted, everything else leaves the record as it was. The count is
/// kept even where the rest of the request is undone.
pub open spec fn after_attempt(
    record: VerificationCodeView,
    code: Seq<char>,
    now: i64,
) -> VerificationCodeView {
    match judged(Some(record), code, None, None, now) {
        Err(RejectionView { wrong_tries: Some(count), .. }) => VerificationCodeView {
            wrong_tries: count,
            ..record
        },
        _ => record,
    }
}

/// A code with three wrong attempts is never confirmed, whatever is
/// presented and whenever: until its expiry it answers that there were too
/// many attempts, after it that it has expired, and its count stays.
pub proof fn locked_code_is_never_confirmed(
    record: VerificationCodeView,
    code: Seq<char>,
    email: Option<Seq<char>>,
    password: Option<Seq<char>>,
    now: i64,
)
    requires
        record.wrong_tries >= MAX_WRONG_TRIES,
    ensures
        judged(Some(record), code, email, password, now) == refused(
            if now > record.expiry_date {
                AppErrorView::Expired
            } else {
                AppErrorView::TooManyAttempts
            },
        ),
        after_attempt(record, code, now) == record,
{
}

/// After three wrong attempts the fourth fails, even with the right code.
/// The code starts without a wrong attempt; `first`, `second` and `third`
/// are wrong and come before the expiry; then `fourth`, whatever it is, is
/// told before the expiry that there were too many attempts.
pub proof fn fourth_attempt_fails(
    record: VerificationCodeView,
    first: (Seq<char>, i64),
    second: (Seq<char>, i64),
    third: (Seq<char>, i64),
    fourth: (Seq<char>, i64),
    email: Option<Seq<char>>,
    password: Option<Seq<char>>,
)
    requires
        record.wrong_tries == 0,
        !password_matches(record.code, first.0),
        !password_matches(record.code, second.0),
        !password_matches(record.code, third.0),
        first.1 <= record.expiry_date,
        second.1 <= record.expiry_date,
        third.1 <= record.expiry_date,
        fourth.1 <= record.expiry_date,
    ensures
        ({
            let once = after_attempt(record, first.0, first.1);
            let twice = after_attempt(once, second.0, second.1);
            let thrice = after_attempt(twice, third.0, third.1);
            &&& thrice.wrong_tries == MAX_WRONG_TRIES
            &&& judged(Some(thrice), fourth.0, email, password, fourth.1) == refused(
                AppErrorView::TooManyAttempts,
            )
        }),
{
}

/// A wrong attempt is always counted: below the limit and before the
/// expiry, a code that does not match raises the count by one and tells the
/// caller to try again.
pub proof fn wrong_attempt_is_counted(
    record: VerificationCodeView,
    code: Seq<char>,
    email: Option<Seq<char>>,
    password: Option<Seq<char>>,
    now: i64,
)
    requires
        record.wrong_tries < MAX_WRONG_TRIES,
        now <= record.expiry_date,
        !password_matches(record.code, code),
    ensures
        judged(Some(record), code, email, password, now) matches Err(rejection)
            && rejection.wrong_tries == Some((record.wrong_tries + 1) as u16),
        after_attempt(record, code, now).wrong_tries == record.wrong_tries + 1,
{
}

/// The codes as they are stored after a request at `now` for `code.email`:
/// every code for that address that had not expired expires at `now`, and
/// the new code joins them.
pub open spec fn after_request(
    table: Seq<VerificationCodeView>,
    code: VerificationCodeView,
    now: i64,
) -> Seq<VerificationCodeView> {
    table.map_values(
        |old: VerificationCodeView|
            if old.email == code.email && old.expiry_date > now {
                VerificationCodeView { expiry_date: now, ..old }
            } else {
                old
            },
    ).push(code)
}

/// A request leaves one code for its address: every earlier code for the
/// address answers from then on that it has expired, whatever is presented,
/// and the codes for other addresses are as they were.
pub proof fn request_expires_earlier_codes(
    table: Seq<VerificationCodeView>,
    code: VerificationCodeView,
    now: i64,
    i: int,
    presented: Seq<char>,
    email: Option<Seq<char>>,
    password: Option<Seq<char>>,
    later: i64,
)
    requires
        0 <= i < table.len(),
        now < later,
    ensures
        after_request(table, code, now).len() == table.len() + 1,
        after_request(table, code, now).last() == code,
        table[i].email == code.email ==> judged(
            Some(after_request(table, code, now)[i]),
            presented,
            email,
            password,
            later,
        ) == refused(AppErrorView::Expired),
        table[i].email != code.email ==> after_request(table, code, now)[i] == table[i],
{
}

} // verus!

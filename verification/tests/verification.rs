use hits_core::dtos::{EmailResetPayload, PasswordResetPayload};
use hits_core::error::{AppError, FieldError};
use hits_core::security::{hash_password, verify_password, Claims, TokenType};
use hits_core::smtp::CodeEmailContext;
use hits_core::user::UserService;
use hits_core::confirmation::{
    ConfirmAction, ConfirmEvent, ConfirmStep, Confirming, UserChange,
};
use hits_core::request::{NewCode, RequestAction, RequestEvent, RequestStep, Requesting};
use hits_core::verification::{
    verification_code, Confirmation, Rejection, VerificationCode, CODE_LIFETIME,
    MAX_WRONG_TRIES,
};

fn record(code: &str, wrong_tries: u16) -> VerificationCode {
    VerificationCode {
        id: 11,
        email: "User@X.com".to_string(),
        code: hash_password(code).unwrap(),
        expiry_date: 1_000,
        wrong_tries,
    }
}

fn refused(error: AppError) -> Result<Confirmation, Rejection> {
    Err(Rejection { error, wrong_tries: None })
}

fn retry() -> AppError {
    AppError::Custom("Ошибка, попробуйте еще раз".to_string())
}

fn caller() -> Claims {
    Claims {
        sub: 1,
        email: "old@x.com".to_string(),
        first_name: "Ada".to_string(),
        last_name: "Lovelace".to_string(),
        exp: 2_000,
        iat: 1_000,
        token_type: TokenType::Access,
        roles: vec![],
    }
}

/// A persistence layer and a mail transport that keep what they are given.
struct World {
    /// The addresses that have an account, each with its password hash.
    accounts: Vec<(String, String)>,
    codes: Vec<VerificationCode>,
    mails: Vec<CodeEmailContext>,
    /// Whether the mail transport takes mail.
    transport_up: bool,
}

impl World {
    fn new(accounts: &[&str]) -> World {
        World {
            accounts: accounts.iter().map(|a| (a.to_string(), "old-hash".to_string())).collect(),
            codes: Vec::new(),
            mails: Vec::new(),
            transport_up: true,
        }
    }

    fn has_account(&self, email: &str) -> bool {
        self.accounts.iter().any(|(address, _)| address == email)
    }

    /// Runs a request for a code to its end.
    fn request(&mut self, start: (Requesting, RequestAction), now: i64) -> Result<u128, AppError> {
        let (mut requesting, mut action) = start;
        let mut codes = self.codes.clone();
        let mut mails = self.mails.clone();
        loop {
            let event = match action {
                RequestAction::FindAccount(email) => RequestEvent::Account(self.has_account(&email)),
                RequestAction::ExpireCodes(email) => {
                    for code in codes.iter_mut() {
                        if code.email == email && code.expiry_date > now {
                            code.expiry_date = now;
                        }
                    }
                    RequestEvent::CodesExpired
                }
                RequestAction::Insert(new) => {
                    let id = codes.len() as u128 + 1;
                    codes.push(VerificationCode {
                        id,
                        email: new.email,
                        code: new.code,
                        expiry_date: new.expiry_date,
                        wrong_tries: new.wrong_tries,
                    });
                    RequestEvent::Stored(id)
                }
                RequestAction::Mail(mail) => {
                    if self.transport_up {
                        mails.push(mail);
                        RequestEvent::Mailed
                    } else {
                        RequestEvent::Failed(AppError::Custom("Connection refused".to_string()))
                    }
                }
                RequestAction::Commit => {
                    self.codes = codes.clone();
                    self.mails = mails.clone();
                    RequestEvent::Committed
                }
                RequestAction::Rollback => RequestEvent::RolledBack,
                RequestAction::Finish(outcome) => return outcome,
            };
            let next = requesting.advance(event);
            requesting = next.0;
            action = next.1;
        }
    }

    /// Runs a confirmation to its end.
    fn confirm(&mut self, start: (Confirming, ConfirmAction), now: i64) -> Result<(), AppError> {
        let (mut confirming, mut action) = start;
        let mut accounts = self.accounts.clone();
        let mut codes = self.codes.clone();
        let mut found = None;
        loop {
            let event = match action {
                ConfirmAction::FindCode(id) => {
                    ConfirmEvent::Code(self.codes.iter().find(|code| code.id == id).cloned())
                }
                ConfirmAction::StoreTries(count) => {
                    let id = confirming.id;
                    for code in self.codes.iter_mut().filter(|code| code.id == id) {
                        code.wrong_tries = count;
                    }
                    ConfirmEvent::TriesStored
                }
                ConfirmAction::FindAccount(email) => {
                    found = accounts.iter().position(|(address, _)| *address == email);
                    ConfirmEvent::Account(found.is_some())
                }
                ConfirmAction::Update(change) => {
                    let account = &mut accounts[found.unwrap()];
                    match change {
                        UserChange::Password(hash) => account.1 = hash,
                        UserChange::Email(email) => account.0 = email,
                    }
                    ConfirmEvent::Updated
                }
                ConfirmAction::ExpireCodes(email) => {
                    for code in codes.iter_mut() {
                        if code.email == email && code.expiry_date > now {
                            code.expiry_date = now;
                        }
                    }
                    ConfirmEvent::CodesExpired
                }
                ConfirmAction::Commit => {
                    self.accounts = accounts.clone();
                    self.codes = codes.clone();
                    ConfirmEvent::Committed
                }
                ConfirmAction::Rollback => ConfirmEvent::RolledBack,
                ConfirmAction::Finish(outcome) => return outcome,
            };
            let next = confirming.advance(event);
            confirming = next.0;
            action = next.1;
        }
    }

    fn confirm_password(&mut self, id: u128, code: &str, password: &str, now: i64) -> Result<(), AppError> {
        let payload =
            PasswordResetPayload { id, code: code.to_string(), password: password.to_string() };
        self.confirm(UserService::confirm_password_reset(payload, now), now)
    }
}

#[test]
fn code_is_six_digits_from_any_random_number() {
    assert_eq!(verification_code(0), "100000");
    assert_eq!(verification_code(899_999), "999999");
    assert_eq!(verification_code(900_000), "100000");
    assert_eq!(verification_code(123_456), "223456");
    assert_eq!(verification_code(u32::MAX), "267295");
}

#[test]
fn missing_code_is_not_found() {
    assert_eq!(
        UserService::_verify_code(None, "123456", None, None, 0),
        refused(AppError::NotFound)
    );
    assert_eq!(World::new(&[]).confirm_password(5, "123456", "12345678", 0), Err(AppError::NotFound));
}

#[test]
fn code_past_its_expiry_is_expired_even_if_right() {
    let stored = record("123456", 0);
    assert_eq!(
        UserService::_verify_code(Some(stored), "123456", None, None, 1_001),
        refused(AppError::Expired)
    );
}

#[test]
fn right_code_at_the_instant_of_expiry_still_confirms() {
    let stored = record("123456", 0);
    assert!(UserService::_verify_code(Some(stored), "123456", None, None, 1_000).is_ok());
}

#[test]
fn wrong_code_is_counted_and_answered_with_try_again() {
    let stored = record("123456", 1);
    assert_eq!(
        UserService::_verify_code(Some(stored), "654321", None, None, 500),
        Err(Rejection { error: retry(), wrong_tries: Some(2) })
    );
}

#[test]
fn fourth_attempt_with_the_right_code_fails_after_three_wrong_ones() {
    let mut stored = record("123456", 0);
    for wrong in ["000000", "111111", "222222"] {
        let answer = UserService::_verify_code(Some(stored.clone()), wrong, None, None, 500);
        let rejection = answer.unwrap_err();
        assert_eq!(rejection.error, retry());
        stored.wrong_tries = rejection.wrong_tries.unwrap();
    }
    assert_eq!(stored.wrong_tries, 3);
    assert_eq!(MAX_WRONG_TRIES, 3);
    assert_eq!(
        UserService::_verify_code(Some(stored.clone()), "123456", None, None, 500),
        refused(AppError::TooManyAttempts)
    );
    assert_eq!(
        UserService::_verify_code(Some(stored), "123456", None, None, 1_001),
        refused(AppError::Expired)
    );
}

#[test]
fn password_reset_from_request_to_lockout() {
    let mut world = World::new(&["user@x.com"]);
    let id = world
        .request(UserService::request_password_reset("User@X.com".to_string(), 1_000), 1_000)
        .unwrap();
    let right = world.mails[0].code.clone();
    let wrong = if right == "100000" { "100001" } else { "100000" };
    for tries in 1..=3 {
        assert_eq!(world.confirm_password(id, wrong, "new-password", 2_000), Err(retry()));
        assert_eq!(world.codes[0].wrong_tries, tries);
    }
    assert_eq!(
        world.confirm_password(id, &right, "new-password", 2_000),
        Err(AppError::TooManyAttempts)
    );
    assert_eq!(world.accounts[0].1, "old-hash");
}

#[test]
fn right_code_sets_the_new_password_and_expires_the_code() {
    let mut world = World::new(&["user@x.com"]);
    let id = world
        .request(UserService::request_password_reset("User@X.com".to_string(), 1_000), 1_000)
        .unwrap();
    let code = world.mails[0].code.clone();
    assert_eq!(world.confirm_password(id, &code, "new-password", 2_000), Ok(()));
    assert!(verify_password(&world.accounts[0].1, "new-password"));
    assert_eq!(world.codes[0].expiry_date, 2_000);
    assert_eq!(world.confirm_password(id, &code, "other-password", 2_001), Err(AppError::Expired));
    assert!(verify_password(&world.accounts[0].1, "new-password"));
}

#[test]
fn right_code_moves_the_account_of_the_caller() {
    let mut world = World::new(&["old@x.com"]);
    let id = world
        .request(UserService::request_email_change("New@X.com".to_string(), 1_000), 1_000)
        .unwrap();
    let payload = EmailResetPayload { id, code: world.mails[0].code.clone() };
    let start = UserService::confirm_email_change(&caller(), payload, 2_000);
    assert_eq!(world.confirm(start, 2_000), Ok(()));
    assert_eq!(world.accounts[0].0, "new@x.com");
    assert_eq!(world.accounts[0].1, "old-hash");
}

#[test]
fn confirmation_asks_for_each_write_in_turn() {
    let payload = PasswordResetPayload {
        id: 11,
        code: "123456".to_string(),
        password: "new-password".to_string(),
    };
    let (confirming, action) = UserService::confirm_password_reset(payload, 500);
    assert_eq!(action, ConfirmAction::FindCode(11));
    assert_eq!(confirming.step, ConfirmStep::Code);
    let (confirming, action) = confirming.advance(ConfirmEvent::Code(Some(record("123456", 2))));
    assert_eq!(action, ConfirmAction::FindAccount("user@x.com".to_string()));
    assert_eq!(confirming.step, ConfirmStep::Account("user@x.com".to_string()));
    let (confirming, action) = confirming.advance(ConfirmEvent::Account(true));
    match action {
        ConfirmAction::Update(UserChange::Password(hash)) => {
            assert!(verify_password(&hash, "new-password"))
        }
        other => panic!("a new password hash was expected, not {:?}", other),
    }
    let (confirming, action) = confirming.advance(ConfirmEvent::Updated);
    assert_eq!(action, ConfirmAction::ExpireCodes("user@x.com".to_string()));
    let (confirming, action) = confirming.advance(ConfirmEvent::CodesExpired);
    assert_eq!(action, ConfirmAction::Commit);
    let (confirming, action) = confirming.advance(ConfirmEvent::Committed);
    assert_eq!(action, ConfirmAction::Finish(Ok(())));
    assert_eq!(confirming.step, ConfirmStep::Done);
}

#[test]
fn change_of_address_looks_the_account_up_by_the_current_address() {
    let payload = EmailResetPayload { id: 11, code: "123456".to_string() };
    let (confirming, _) = UserService::confirm_email_change(&caller(), payload, 500);
    let (confirming, action) = confirming.advance(ConfirmEvent::Code(Some(record("123456", 0))));
    assert_eq!(action, ConfirmAction::FindAccount("old@x.com".to_string()));
    let (_, action) = confirming.advance(ConfirmEvent::Account(true));
    assert_eq!(action, ConfirmAction::Update(UserChange::Email("user@x.com".to_string())));
}

#[test]
fn confirmation_for_a_missing_account_rolls_back_and_is_not_found() {
    let mut world = World::new(&[]);
    world.codes.push(VerificationCode { id: 1, ..record("123456", 0) });
    assert_eq!(world.confirm_password(1, "123456", "new-password", 500), Err(AppError::NotFound));
    let payload = PasswordResetPayload {
        id: 1,
        code: "123456".to_string(),
        password: "new-password".to_string(),
    };
    let (confirming, _) = UserService::confirm_password_reset(payload, 500);
    let (confirming, _) = confirming.advance(ConfirmEvent::Code(Some(record("123456", 0))));
    let (confirming, action) = confirming.advance(ConfirmEvent::Account(false));
    assert_eq!(action, ConfirmAction::Rollback);
    assert_eq!(confirming.step, ConfirmStep::Rollback(AppError::NotFound));
}

#[test]
fn wrong_attempt_is_stored_before_the_caller_is_answered() {
    let payload = PasswordResetPayload {
        id: 11,
        code: "654321".to_string(),
        password: "new-password".to_string(),
    };
    let (confirming, _) = UserService::confirm_password_reset(payload, 500);
    let (confirming, action) = confirming.advance(ConfirmEvent::Code(Some(record("123456", 0))));
    assert_eq!(action, ConfirmAction::StoreTries(1));
    assert_eq!(confirming.step, ConfirmStep::Tries(retry()));
    let (_, action) = confirming.clone().advance(ConfirmEvent::TriesStored);
    assert_eq!(action, ConfirmAction::Finish(Err(retry())));
    let (_, action) = confirming.advance(ConfirmEvent::Failed(AppError::DbErr));
    assert_eq!(action, ConfirmAction::Finish(Err(AppError::DbErr)));
}

#[test]
fn failure_inside_the_confirmation_rolls_back() {
    let payload = PasswordResetPayload {
        id: 11,
        code: "123456".to_string(),
        password: "new-password".to_string(),
    };
    let (confirming, _) = UserService::confirm_password_reset(payload, 500);
    let (confirming, _) = confirming.advance(ConfirmEvent::Code(Some(record("123456", 0))));
    let (confirming, _) = confirming.advance(ConfirmEvent::Account(true));
    let (confirming, action) = confirming.advance(ConfirmEvent::Failed(AppError::DbErr));
    assert_eq!(action, ConfirmAction::Rollback);
    let (_, action) = confirming.advance(ConfirmEvent::RolledBack);
    assert_eq!(action, ConfirmAction::Finish(Err(AppError::DbErr)));
}

#[test]
fn confirmation_with_a_malformed_code_ends_before_the_code_is_looked_at() {
    let payload =
        PasswordResetPayload { id: 11, code: "12".to_string(), password: "12345678".to_string() };
    let expected = AppError::ValidationError(vec![FieldError {
        field: "code".to_string(),
        messages: vec!["Код должен состоять из 6 цифр".to_string()],
    }]);
    let (confirming, action) = UserService::confirm_password_reset(payload, 500);
    assert_eq!(action, ConfirmAction::Finish(Err(expected)));
    assert_eq!(confirming.step, ConfirmStep::Done);
}

#[test]
fn corrupted_stored_hash_counts_as_a_wrong_attempt() {
    let stored = VerificationCode {
        id: 1,
        email: "a@x.com".to_string(),
        code: "corrupted".to_string(),
        expiry_date: 1_000,
        wrong_tries: 0,
    };
    assert_eq!(
        UserService::_verify_code(Some(stored), "corrupted", None, None, 500),
        Err(Rejection { error: retry(), wrong_tries: Some(1) })
    );
}

#[test]
fn password_reset_is_requested_for_an_existing_account_only() {
    let mut world = World::new(&[]);
    assert_eq!(
        world.request(UserService::request_password_reset("a@x.com".to_string(), 0), 0),
        Err(AppError::NotFound)
    );
    assert_eq!(world.codes, vec![]);
    assert_eq!(world.mails, vec![]);
}

#[test]
fn requested_code_is_mailed_in_plain_and_stored_hashed() {
    let (requesting, action) = UserService::request_password_reset("User@X.com".to_string(), 1_000);
    assert_eq!(action, RequestAction::FindAccount("user@x.com".to_string()));
    assert_eq!(requesting.step, RequestStep::Account);
    assert_eq!(requesting.expiry_date, 1_000 + 600_000_000);
    assert_eq!(CODE_LIFETIME, 600_000_000);
    let (requesting, action) = requesting.advance(RequestEvent::Account(true));
    assert_eq!(action, RequestAction::ExpireCodes("user@x.com".to_string()));
    let (requesting, action) = requesting.advance(RequestEvent::CodesExpired);
    let stored = match action {
        RequestAction::Insert(code) => code,
        other => panic!("a code to store was expected, not {:?}", other),
    };
    let mail = match requesting.step.clone() {
        RequestStep::Storing(mail) => mail,
        other => panic!("a mail to send was expected, not {:?}", other),
    };
    assert_eq!(mail.code.len(), 6);
    assert!(mail.code.chars().all(|c| c.is_ascii_digit()));
    assert!(mail.code.as_str() >= "100000");
    assert!(verify_password(&stored.code, &mail.code));
    assert_eq!(
        stored,
        NewCode {
            email: "user@x.com".to_string(),
            code: stored.code.clone(),
            expiry_date: 600_001_000,
            wrong_tries: 0,
        }
    );
    assert_eq!(
        mail,
        CodeEmailContext {
            email: "User@X.com".to_string(),
            code: mail.code.clone(),
            subject: "Код для изменения пароля".to_string(),
            text: "Вы изменяете пароль на вашем аккаунте. Необходимо ввести код для подтверждения изменения".to_string(),
        }
    );
    let (requesting, action) = requesting.advance(RequestEvent::Stored(77));
    assert_eq!(action, RequestAction::Mail(mail));
    let (requesting, action) = requesting.advance(RequestEvent::Mailed);
    assert_eq!(action, RequestAction::Commit);
    let (requesting, action) = requesting.advance(RequestEvent::Committed);
    assert_eq!(action, RequestAction::Finish(Ok(77)));
    assert_eq!(requesting.step, RequestStep::Done);
}

#[test]
fn new_request_expires_the_earlier_code_of_the_address() {
    let mut world = World::new(&["user@x.com", "other@x.com"]);
    let first = world
        .request(UserService::request_password_reset("user@x.com".to_string(), 1_000), 1_000)
        .unwrap();
    let other = world
        .request(UserService::request_password_reset("other@x.com".to_string(), 1_500), 1_500)
        .unwrap();
    let second = world
        .request(UserService::request_password_reset("USER@x.com".to_string(), 2_000), 2_000)
        .unwrap();
    assert_eq!(world.codes[0].expiry_date, 2_000);
    assert_eq!(world.codes[1].expiry_date, 600_001_500);
    assert_eq!(world.codes[2].expiry_date, 600_002_000);
    let earlier = world.mails[0].code.clone();
    let later = world.mails[2].code.clone();
    assert_eq!(world.confirm_password(first, &earlier, "new-password", 3_000), Err(AppError::Expired));
    assert_eq!(world.confirm_password(second, &later, "new-password", 3_000), Ok(()));
    assert_ne!(other, second);
}

#[test]
fn request_at_an_instant_without_expiry_ends_with_an_internal_error() {
    let (requesting, action) =
        UserService::request_password_reset("user@x.com".to_string(), i64::MAX - 599_999_999);
    assert_eq!(action, RequestAction::Finish(Err(AppError::InternalServerError)));
    assert_eq!(requesting.step, RequestStep::Done);
    let (_, action) = UserService::request_email_change("user@x.com".to_string(), i64::MAX);
    assert_eq!(action, RequestAction::Finish(Err(AppError::InternalServerError)));
    let (requesting, action) =
        UserService::request_password_reset("user@x.com".to_string(), i64::MAX - 600_000_000);
    assert_eq!(action, RequestAction::FindAccount("user@x.com".to_string()));
    assert_eq!(requesting.expiry_date, i64::MAX);
}

#[test]
fn failure_while_the_old_codes_expire_rolls_back() {
    let (requesting, _) = UserService::request_password_reset("user@x.com".to_string(), 0);
    let (requesting, action) = requesting.advance(RequestEvent::Account(true));
    assert_eq!(action, RequestAction::ExpireCodes("user@x.com".to_string()));
    let (requesting, action) = requesting.advance(RequestEvent::Failed(AppError::DbErr));
    assert_eq!(action, RequestAction::Rollback);
    let (_, action) = requesting.advance(RequestEvent::RolledBack);
    assert_eq!(action, RequestAction::Finish(Err(AppError::DbErr)));
}

#[test]
fn failed_mail_leaves_nothing_of_the_request() {
    let mut world = World::new(&["user@x.com"]);
    world.transport_up = false;
    assert_eq!(
        world.request(UserService::request_password_reset("user@x.com".to_string(), 1_000), 1_000),
        Err(AppError::Custom("Connection refused".to_string()))
    );
    assert_eq!(world.codes, vec![]);
    assert_eq!(world.mails, vec![]);
}

#[test]
fn change_to_an_address_that_is_taken_is_refused() {
    let mut world = World::new(&["a@x.com"]);
    assert_eq!(
        world.request(UserService::request_email_change("A@x.com".to_string(), 0), 0),
        Err(AppError::Custom("Пользователь с такой почтой уже существует!".to_string()))
    );
    assert_eq!(world.codes, vec![]);
}

#[test]
fn change_of_address_mails_the_code_to_the_new_address() {
    let mut world = World::new(&["old@x.com"]);
    let id =
        world.request(UserService::request_email_change("New@X.com".to_string(), 7), 7).unwrap();
    assert_eq!(world.codes[0].id, id);
    assert_eq!(world.codes[0].email, "new@x.com");
    assert_eq!(world.codes[0].expiry_date, 600_000_007);
    assert!(verify_password(&world.codes[0].code, &world.mails[0].code));
    assert_eq!(world.mails[0].email, "New@X.com");
    assert_eq!(world.mails[0].subject, "Код для изменения почты");
    assert_eq!(
        world.mails[0].text,
        "Вы изменяете почту на вашем аккаунте. Необходимо ввести код для изменения почты для потверждения изменения"
    );
}

#[test]
fn request_stores_the_draw_that_it_is_given() {
    let (requesting, _) = UserService::request_password_reset("User@X.com".to_string(), 1_000);
    let (requesting, action) =
        requesting.advance_with(RequestEvent::Account(true), Some((7, "$hash".to_string())));
    assert_eq!(action, RequestAction::ExpireCodes("user@x.com".to_string()));
    let stored = NewCode {
        email: "user@x.com".to_string(),
        code: "$hash".to_string(),
        expiry_date: 600_001_000,
        wrong_tries: 0,
    };
    let mail = CodeEmailContext {
        email: "User@X.com".to_string(),
        code: "100007".to_string(),
        subject: "Код для изменения пароля".to_string(),
        text: "Вы изменяете пароль на вашем аккаунте. Необходимо ввести код для подтверждения изменения".to_string(),
    };
    assert_eq!(requesting.step, RequestStep::Expiring(stored.clone(), mail.clone()));
    let (requesting, action) = requesting.advance_with(RequestEvent::CodesExpired, None);
    assert_eq!(action, RequestAction::Insert(stored));
    let (requesting, action) = requesting.advance_with(RequestEvent::Stored(77), None);
    assert_eq!(action, RequestAction::Mail(mail));
    let (requesting, action) = requesting.advance_with(RequestEvent::Mailed, None);
    assert_eq!(action, RequestAction::Commit);
    let (_, action) = requesting.advance_with(RequestEvent::Committed, None);
    assert_eq!(action, RequestAction::Finish(Ok(77)));
}

#[test]
fn request_without_a_draw_ends_with_an_internal_error() {
    let (requesting, _) = UserService::request_password_reset("User@X.com".to_string(), 1_000);
    let (requesting, action) = requesting.advance_with(RequestEvent::Account(true), None);
    assert_eq!(action, RequestAction::Finish(Err(AppError::InternalServerError)));
    assert_eq!(requesting.step, RequestStep::Done);
}

#[test]
fn refused_request_looks_at_no_draw() {
    let (requesting, _) = UserService::request_password_reset("User@X.com".to_string(), 1_000);
    let (_, action) =
        requesting.advance_with(RequestEvent::Account(false), Some((7, "$hash".to_string())));
    assert_eq!(action, RequestAction::Finish(Err(AppError::NotFound)));
}

#[test]
fn request_for_an_existing_account_always_draws_a_code() {
    for _ in 0..3 {
        let (requesting, _) = UserService::request_password_reset("user@x.com".to_string(), 5);
        let (requesting, action) = requesting.advance(RequestEvent::Account(true));
        assert_eq!(action, RequestAction::ExpireCodes("user@x.com".to_string()));
        assert!(matches!(requesting.step, RequestStep::Expiring(_, _)));
    }
}

fn confirming_account() -> Confirming {
    let payload = PasswordResetPayload {
        id: 11,
        code: "123456".to_string(),
        password: "new-password".to_string(),
    };
    let (confirming, _) = UserService::confirm_password_reset(payload, 500);
    let (confirming, _) = confirming.advance(ConfirmEvent::Code(Some(record("123456", 2))));
    assert_eq!(confirming.step, ConfirmStep::Account("user@x.com".to_string()));
    confirming
}

#[test]
fn confirmation_stores_the_hash_that_it_is_given() {
    let (confirming, action) =
        confirming_account().advance_with(ConfirmEvent::Account(true), Some("$hash".to_string()));
    assert_eq!(action, ConfirmAction::Update(UserChange::Password("$hash".to_string())));
    assert_eq!(confirming.step, ConfirmStep::Update("user@x.com".to_string()));
}

#[test]
fn confirmation_without_a_hash_rolls_back_with_an_internal_error() {
    let (confirming, action) = confirming_account().advance_with(ConfirmEvent::Account(true), None);
    assert_eq!(action, ConfirmAction::Rollback);
    assert_eq!(confirming.step, ConfirmStep::Rollback(AppError::InternalServerError));
    let (_, action) = confirming.advance_with(ConfirmEvent::RolledBack, None);
    assert_eq!(action, ConfirmAction::Finish(Err(AppError::InternalServerError)));
}

#[test]
fn confirmation_of_a_password_always_has_a_hash_to_store() {
    let (_, action) = confirming_account().advance(ConfirmEvent::Account(true));
    assert!(matches!(action, ConfirmAction::Update(UserChange::Password(_))));
}

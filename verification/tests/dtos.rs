use hits_core::dtos::{EmailResetPayload, LoginPayload, PasswordResetPayload, RegisterPayload};
use hits_core::error::{AppError, FieldError};

fn complaint(field: &str, message: &str) -> FieldError {
    FieldError { field: field.to_string(), messages: vec![message.to_string()] }
}

fn login(email: &str, password: &str) -> LoginPayload {
    LoginPayload { email: email.to_string(), password: password.to_string() }
}

#[test]
fn well_formed_credentials_pass() {
    assert_eq!(login("a@x.com", "12345678").validate(), Ok(()));
    assert_eq!(login("email@[127.0.0.1]", "пароль-8").validate(), Ok(()));
}

#[test]
fn address_without_at_sign_is_refused() {
    assert_eq!(
        login("a.x.com", "12345678").validate(),
        Err(AppError::ValidationError(vec![complaint("email", "Некорректный формат email")]))
    );
    assert_eq!(
        login("", "12345678").validate(),
        Err(AppError::ValidationError(vec![complaint("email", "Некорректный формат email")]))
    );
}

#[test]
fn password_of_seven_characters_is_refused() {
    assert_eq!(
        login("a@x.com", "1234567").validate(),
        Err(AppError::ValidationError(vec![complaint(
            "password",
            "Пароль должен быть не менее 8 символов"
        )]))
    );
}

#[test]
fn password_length_counts_characters_not_bytes() {
    assert_eq!(login("a@x.com", "пароль12").validate(), Ok(()));
    assert!(login("a@x.com", "пароль").validate().is_err());
}

#[test]
fn both_complaints_come_in_the_order_of_the_fields() {
    assert_eq!(
        login("nobody", "short").validate(),
        Err(AppError::ValidationError(vec![
            complaint("email", "Некорректный формат email"),
            complaint("password", "Пароль должен быть не менее 8 символов"),
        ]))
    );
}

#[test]
fn registration_keeps_the_rules_of_the_credentials() {
    let payload = RegisterPayload {
        email: "a@x.com".to_string(),
        password: "short".to_string(),
        last_name: "Lovelace".to_string(),
        first_name: "Ada".to_string(),
        study_group: None,
        telephone: None,
    };
    assert_eq!(
        payload.validate(),
        Err(AppError::ValidationError(vec![complaint(
            "password",
            "Пароль должен быть не менее 8 символов"
        )]))
    );
    assert_eq!(RegisterPayload { password: "long enough".to_string(), ..payload }.validate(), Ok(()));
}

#[test]
fn code_must_have_six_characters() {
    let payload = EmailResetPayload { id: 1, code: "12345".to_string() };
    assert_eq!(
        payload.validate(),
        Err(AppError::ValidationError(vec![complaint("code", "Код должен состоять из 6 цифр")]))
    );
    assert_eq!(EmailResetPayload { id: 1, code: "1234567".to_string() }.validate().is_err(), true);
    assert_eq!(EmailResetPayload { id: 1, code: "123456".to_string() }.validate(), Ok(()));
}

#[test]
fn password_reset_checks_code_and_new_password() {
    let payload =
        PasswordResetPayload { id: 1, code: "1".to_string(), password: "2".to_string() };
    assert_eq!(
        payload.validate(),
        Err(AppError::ValidationError(vec![
            complaint("code", "Код должен состоять из 6 цифр"),
            complaint("password", "Пароль должен быть не менее 8 символов"),
        ]))
    );
    let payload = PasswordResetPayload {
        id: 1,
        code: "123456".to_string(),
        password: "12345678".to_string(),
    };
    assert_eq!(payload.validate(), Ok(()));
}

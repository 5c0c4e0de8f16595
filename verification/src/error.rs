//! The ways in which a request can fail, and how each is answered.

use vstd::prelude::*;

verus! {

/// The messages that validation raised against one field of a payload.
#[derive(Debug, Clone, PartialEq, Eq)]
pub struct FieldError {
    pub field: String,
    pub messages: Vec<String>,
}

/// The model of a [`FieldError`].
pub struct FieldErrorView {
    pub field: Seq<char>,
    pub messages: Seq<Seq<char>>,
}

impl View for FieldError {
    type V = FieldErrorView;

    open spec fn view(&self) -> FieldErrorView {
        FieldErrorView { field: self.field@, messages: crate::text::views(self.messages@) }
    }
}

/// The models of a list of field errors, in order.
pub open spec fn field_views(list: Seq<FieldError>) -> Seq<FieldErrorView> {
    list.map_values(|e: FieldError| e@)
}

/// Every way in which a request can fail.
#[derive(Debug, Clone, PartialEq, Eq)]
pub enum AppError {
    /// The request carries no credentials, or the wrong ones.
    WrongCredentials,
    /// A token could not be issued.
    TokenCreation,
    /// The token is malformed, forged, expired or of the wrong kind.
    InvalidToken,
    /// The entity that the request refers to does not exist.
    NotFound,
    /// The request cannot be read.
    BadRequest,
    /// The caller is known but lacks the required role.
    Forbidden,
    /// A verification code was presented after its expiry.
    Expired,
    /// A verification code was presented after three wrong attempts.
    TooManyAttempts,
    /// A business rule was broken; the text says which.
    Custom(String),
    /// Something unexpected failed inside the service.
    InternalServerError,
    /// The payload broke the listed field rules.
    ValidationError(Vec<FieldError>),
    /// The persistence layer failed.
    DbErr,
    /// The stream infrastructure failed.
    RedisErr,
}

/// The model of an [`AppError`].
pub enum AppErrorView {
    WrongCredentials,
    TokenCreation,
    InvalidToken,
    NotFound,
    BadRequest,
    Forbidden,
    Expired,
    TooManyAttempts,
    Custom(Seq<char>),
    InternalServerError,
    ValidationError(Seq<FieldErrorView>),
    DbErr,
    RedisErr,
}

impl View for AppError {
    type V = AppErrorView;

    open spec fn view(&self) -> AppErrorView {
        match self {
            AppError::WrongCredentials => AppErrorView::WrongCredentials,
            AppError::TokenCreation => AppErrorView::TokenCreation,
            AppError::InvalidToken => AppErrorView::InvalidToken,
            AppError::NotFound => AppErrorView::NotFound,
            AppError::BadRequest => AppErrorView::BadRequest,
            AppError::Forbidden => AppErrorView::Forbidden,
            AppError::Expired => AppErrorView::Expired,
            AppError::TooManyAttempts => AppErrorView::TooManyAttempts,
            AppError::Custom(text) => AppErrorView::Custom(text@),
            AppError::InternalServerError => AppErrorView::InternalServerError,
            AppError::ValidationError(fields) => AppErrorView::ValidationError(
                field_views(fields@),
            ),
            AppError::DbErr => AppErrorView::DbErr,
            AppError::RedisErr => AppErrorView::RedisErr,
        }
    }
}

/// What the client receives in the body of a failed response.
#[derive(Debug, Clone, PartialEq, Eq)]
pub enum ErrorBody {
    /// One message, sent under the key `error`.
    Error(String),
    /// The messages per field, sent under the key `errors`.
    Errors(Vec<FieldError>),
}

/// The model of an [`ErrorBody`].
pub enum ErrorBodyView {
    Error(Seq<char>),
    Errors(Seq<FieldErrorView>),
}

impl View for ErrorBody {
    type V = ErrorBodyView;

    open spec fn view(&self) -> ErrorBodyView {
        match self {
            ErrorBody::Error(text) => ErrorBodyView::Error(text@),
            ErrorBody::Errors(fields) => ErrorBodyView::Errors(field_views(fields@)),
        }
    }
}

/// A failed response: the HTTP status and the body.
#[derive(Debug, Clone, PartialEq, Eq)]
pub struct ErrorResponse {
    pub status: u16,
    pub body: ErrorBody,
}

/// The status of a request without valid credentials.
pub const UNAUTHORIZED: u16 = 401;

/// The status of a request by a known caller without the role.
pub const FORBIDDEN: u16 = 403;

/// The status of a request for what does not exist.
pub const NOT_FOUND: u16 = 404;

/// The status of a request that breaks a rule.
pub const BAD_REQUEST: u16 = 400;

/// The status of a payload that breaks its field rules.
pub const UNPROCESSABLE_ENTITY: u16 = 422;

/// The status of a failure inside the service.
pub const INTERNAL_SERVER_ERROR: u16 = 500;

/// The text that describes an error.
pub open spec fn description(e: AppErrorView) -> Seq<char> {
    match e {
        AppErrorView::WrongCredentials => "Wrong credentials"@,
        AppErrorView::TokenCreation => "Token creation error"@,
        AppErrorView::InvalidToken => "Invalid token"@,
        AppErrorView::NotFound => "Not Found"@,
        AppErrorView::BadRequest => "Bad Request"@,
        AppErrorView::Forbidden => "Forbidden"@,
        AppErrorView::Expired => "Время запроса истекло"@,
        AppErrorView::TooManyAttempts => "Превышено максимальное количество попыток"@,
        AppErrorView::Custom(text) => text,
        AppErrorView::InternalServerError => "Internal Server Error"@,
        AppErrorView::ValidationError(_) => "Validation error"@,
        AppErrorView::DbErr => "Database error"@,
        AppErrorView::RedisErr => "An error occurred with Redis"@,
    }
}

/// The HTTP status with which an error is answered.
pub open spec fn status_of(e: AppErrorView) -> u16 {
    match e {
        AppErrorView::WrongCredentials | AppErrorView::InvalidToken => UNAUTHORIZED,
        AppErrorView::TokenCreation | AppErrorView::InternalServerError => INTERNAL_SERVER_ERROR,
        AppErrorView::NotFound => NOT_FOUND,
        AppErrorView::BadRequest => BAD_REQUEST,
        AppErrorView::Forbidden => FORBIDDEN,
        AppErrorView::Expired | AppErrorView::TooManyAttempts | AppErrorView::Custom(_) => BAD_REQUEST,
        AppErrorView::ValidationError(_) => UNPROCESSABLE_ENTITY,
        AppErrorView::DbErr | AppErrorView::RedisErr => INTERNAL_SERVER_ERROR,
    }
}

/// The body with which an error is answered. Failures of the collaborators
/// are answered in general words, so that nothing of their cause leaks.
pub open spec fn body_of(e: AppErrorView) -> ErrorBodyView {
    match e {
        AppErrorView::ValidationError(fields) => ErrorBodyView::Errors(fields),
        AppErrorView::DbErr => ErrorBodyView::Error("A database error occurred"@),
        AppErrorView::RedisErr => ErrorBodyView::Error("An internal service error occurred"@),
        _ => ErrorBodyView::Error(description(e)),
    }
}

/// The model of what a fallible operation returned.
pub open spec fn outcome_view<T: View>(outcome: Result<T, AppError>) -> Result<T::V, AppErrorView> {
    match outcome {
        Ok(value) => Ok(value@),
        Err(e) => Err(e@),
    }
}

impl AppError {
    /// Describes the error in words.
    pub fn to_string(&self) -> (text: String)
        ensures
            text@ == description(self@),
    {
        match self {
            AppError::WrongCredentials => String::from_str("Wrong credentials"),
            AppError::TokenCreation => String::from_str("Token creation error"),
            AppError::InvalidToken => String::from_str("Invalid token"),
            AppError::NotFound => String::from_str("Not Found"),
            AppError::BadRequest => String::from_str("Bad Request"),
            AppError::Forbidden => String::from_str("Forbidden"),
            AppError::Expired => String::from_str("Время запроса истекло"),
            AppError::TooManyAttempts => String::from_str(
                "Превышено максимальное количество попыток",
            ),
            AppError::Custom(text) => text.clone(),
            AppError::InternalServerError => String::from_str("Internal Server Error"),
            AppError::ValidationError(_) => String::from_str("Validation error"),
            AppError::DbErr => String::from_str("Database error"),
            AppError::RedisErr => String::from_str("An error occurred with Redis"),
        }
    }

    /// Turns the error into the response that the client receives.
    pub fn into_response(self) -> (response: ErrorResponse)
        ensures
            response.status == status_of(self@),
            response.body@ == body_of(self@),
    {
        match self {
            AppError::WrongCredentials | AppError::InvalidToken => ErrorResponse {
                status: UNAUTHORIZED,
                body: ErrorBody::Error(self.to_string()),
            },
            AppError::TokenCreation | AppError::InternalServerError => ErrorResponse {
                status: INTERNAL_SERVER_ERROR,
                body: ErrorBody::Error(self.to_string()),
            },
            AppError::NotFound => ErrorResponse {
                status: NOT_FOUND,
                body: ErrorBody::Error(self.to_string()),
            },
            AppError::Forbidden => ErrorResponse {
                status: FORBIDDEN,
                body: ErrorBody::Error(self.to_string()),
            },
            AppError::BadRequest | AppError::Expired | AppError::TooManyAttempts => ErrorResponse {
                status: BAD_REQUEST,
                body: ErrorBody::Error(self.to_string()),
            },
            AppError::Custom(text) => ErrorResponse {
                status: BAD_REQUEST,
                body: ErrorBody::Error(text),
            },
            AppError::ValidationError(fields) => ErrorResponse {
                status: UNPROCESSABLE_ENTITY,
                body: ErrorBody::Errors(fields),
            },
            AppError::DbErr => ErrorResponse {
                status: INTERNAL_SERVER_ERROR,
                body: ErrorBody::Error(String::from_str("A database error occurred")),
            },
            AppError::RedisErr => ErrorResponse {
                status: INTERNAL_SERVER_ERROR,
                body: ErrorBody::Error(String::from_str("An internal service error occurred")),
            },
        }
    }
}

} // verus!

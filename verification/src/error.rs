//! The errors the service answers with, and what each one shows a client.

use vstd::prelude::*;
use crate::text::{owned, push_text};

verus! {

/// Why a request failed. The variants that wrapped a `sqlx`, `jsonwebtoken`
/// or `anyhow` error carry that error's text, which is only ever logged.
#[derive(Clone, Debug)]
pub enum AppError {
    Validation(String),
    InvalidCredentials,
    AccountLocked,
    EmailTaken,
    Unauthorized,
    Forbidden,
    NotFound,
    Database(String),
    Token(String),
    Internal(String),
}

pub type AppResult<T> = Result<T, AppError>;

/// The HTTP status code of the answer to `e`.
pub open spec fn status_of(e: AppError) -> u16 {
    match e {
        AppError::Validation(_) => 422,
        AppError::InvalidCredentials => 401,
        AppError::AccountLocked => 423,
        AppError::EmailTaken => 409,
        AppError::Unauthorized => 401,
        AppError::Forbidden => 403,
        AppError::NotFound => 404,
        AppError::Database(_) => 500,
        AppError::Token(_) => 401,
        AppError::Internal(_) => 500,
    }
}

/// The message a client is shown for `e`.
pub open spec fn public_message_of(e: AppError) -> Seq<char> {
    match e {
        AppError::Validation(m) => m@,
        AppError::InvalidCredentials => "invalid email or password"@,
        AppError::AccountLocked => "account temporarily locked due to too many failed login attempts"@,
        AppError::EmailTaken => "an account with this email already exists"@,
        AppError::Unauthorized => "authentication required"@,
        AppError::Forbidden => "you do not have access to this resource"@,
        AppError::NotFound => "resource not found"@,
        AppError::Database(_) => "internal server error"@,
        AppError::Token(_) => "invalid or expired token"@,
        AppError::Internal(_) => "internal server error"@,
    }
}

/// The error's own description (what its `Display` printed).
pub open spec fn description_of(e: AppError) -> Seq<char> {
    match e {
        AppError::Validation(m) => "validation error: "@ + m@,
        AppError::InvalidCredentials => "invalid credentials"@,
        AppError::AccountLocked => "account locked"@,
        AppError::EmailTaken => "email already registered"@,
        AppError::Unauthorized => "unauthorized"@,
        AppError::Forbidden => "forbidden"@,
        AppError::NotFound => "not found"@,
        AppError::Database(_) => "database error"@,
        AppError::Token(_) => "token error"@,
        AppError::Internal(_) => "internal error"@,
    }
}

impl AppError {
    /// HTTP status code of the error response.
    pub fn status_code(&self) -> (res: u16)
        ensures
            res == status_of(*self),
    {
        match self {
            AppError::Validation(_) => 422,
            AppError::InvalidCredentials => 401,
            AppError::AccountLocked => 423,
            AppError::EmailTaken => 409,
            AppError::Unauthorized => 401,
            AppError::Forbidden => 403,
            AppError::NotFound => 404,
            AppError::Database(_) => 500,
            AppError::Token(_) => 401,
            AppError::Internal(_) => 500,
        }
    }

    /// Message of the error response.
    pub fn public_message(&self) -> (res: String)
        ensures
            res@ == public_message_of(*self),
    {
        match self {
            AppError::Validation(m) => m.clone(),
            AppError::InvalidCredentials => owned("invalid email or password"),
            AppError::AccountLocked => owned(
                "account temporarily locked due to too many failed login attempts",
            ),
            AppError::EmailTaken => owned("an account with this email already exists"),
            AppError::Unauthorized => owned("authentication required"),
            AppError::Forbidden => owned("you do not have access to this resource"),
            AppError::NotFound => owned("resource not found"),
            AppError::Database(_) => owned("internal server error"),
            AppError::Token(_) => owned("invalid or expired token"),
            AppError::Internal(_) => owned("internal server error"),
        }
    }

    /// The error's description, for logs.
    pub fn description(&self) -> (res: String)
        ensures
            res@ == description_of(*self),
    {
        match self {
            AppError::Validation(m) => {
                let mut s = owned("validation error: ");
                push_text(&mut s, m.as_str());
                s
            },
            AppError::InvalidCredentials => owned("invalid credentials"),
            AppError::AccountLocked => owned("account locked"),
            AppError::EmailTaken => owned("email already registered"),
            AppError::Unauthorized => owned("unauthorized"),
            AppError::Forbidden => owned("forbidden"),
            AppError::NotFound => owned("not found"),
            AppError::Database(_) => owned("database error"),
            AppError::Token(_) => owned("token error"),
            AppError::Internal(_) => owned("internal error"),
        }
    }
}

/// Law: what a client sees of a database, token or internal error does not
/// depend on the detail the error carries; database and internal failures
/// are both answered with status 500.
pub proof fn lemma_error_detail_hidden(a: String, b: String)
    ensures
        status_of(AppError::Database(a)) == status_of(AppError::Database(b)) == 500,
        status_of(AppError::Internal(a)) == 500,
        public_message_of(AppError::Database(a)) == public_message_of(AppError::Database(b)),
        public_message_of(AppError::Database(a)) == public_message_of(AppError::Internal(b)),
        public_message_of(AppError::Token(a)) == public_message_of(AppError::Token(b)),
        status_of(AppError::Token(a)) == status_of(AppError::Unauthorized),
{
}

} // verus!

//! Application errors and the HTTP answer that each of them gets.
use vstd::prelude::*;
use crate::json::{json_string_literal, push_quoted};

verus! {

/// The errors that the service's operations end in.
#[derive(Debug, Clone, PartialEq, Eq)]
pub enum AppError {
    /// A requested entity does not exist.
    NotFound(String),
    /// Invalid credentials or an invalid one-time password.
    Unauthorized(String),
    /// A database failure, with the driver's description of it.
    Database(String),
    /// The e-mail provider failed or refused.
    Email(String),
    /// An unexpected internal fault.
    Internal(String),
}

/// An HTTP error answer: status code and JSON body.
#[derive(Debug, Clone, PartialEq, Eq)]
pub struct ErrorResponse {
    pub status: u16,
    pub body: String,
}

/// The status code that answers `e`.
pub open spec fn error_status(e: AppError) -> u16 {
    match e {
        AppError::NotFound(_) => 404,
        AppError::Unauthorized(_) => 401,
        AppError::Database(_) => 500,
        AppError::Email(_) => 500,
        AppError::Internal(_) => 500,
    }
}

/// The message shown to the client for `e`. A database error's own text
/// is never shown.
pub open spec fn error_message(e: AppError) -> Seq<char> {
    match e {
        AppError::NotFound(m) => m@,
        AppError::Unauthorized(m) => m@,
        AppError::Database(_) => "A database error occurred"@,
        AppError::Email(m) => m@,
        AppError::Internal(m) => m@,
    }
}

/// The JSON body `{"error":<message>}`.
pub open spec fn error_body(message: Seq<char>) -> Seq<char> {
    "{\"error\":"@ + json_string_literal(message) + "}"@
}

impl AppError {
    /// The HTTP answer for this error: 404, 401 or 500, with the message in a
    /// JSON object under the key `error`.
    pub fn into_response(self) -> (r: ErrorResponse)
        ensures
            r.status == error_status(self),
            r.body@ == error_body(error_message(self)),
    {
        let (status, message): (u16, String) = match self {
            AppError::NotFound(msg) => (404, msg),
            AppError::Unauthorized(msg) => (401, msg),
            AppError::Database(_) => (500, String::from_str("A database error occurred")),
            AppError::Email(msg) => (500, msg),
            AppError::Internal(msg) => (500, msg),
        };
        let mut body = String::from_str("{\"error\":");
        push_quoted(&mut body, message.as_str());
        body.append("}");
        ErrorResponse { status, body }
    }
}

} // verus!

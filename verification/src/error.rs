//! Errors: the application error with its HTTP status and message, and
//! the JSON error that the OAuth and notification APIs answer with.
use vstd::prelude::*;
use crate::text::push_str;

verus! {

/// An application error. Variants that wrap a lower-level error hold that
/// error's message.
#[derive(Debug)]
pub enum AppError {
    Template(String),
    Io(String),
    Internal(String),
    NotFound,
    Forbidden,
    BadRequest(String),
    Database(String),
    Migration(String),
}

/// The HTTP status of an application error.
pub open spec fn status_of(e: AppError) -> u16 {
    match e {
        AppError::NotFound => 404,
        AppError::Forbidden => 403,
        AppError::BadRequest(_) => 400,
        _ => 500,
    }
}

/// The message of an application error: a fixed prefix and, for wrapping
/// variants, the wrapped message.
pub open spec fn message_of(e: AppError) -> Seq<char> {
    match e {
        AppError::Template(m) => "template error: "@ + m@,
        AppError::Io(m) => "io error: "@ + m@,
        AppError::Internal(m) => "internal error: "@ + m@,
        AppError::NotFound => "not found"@,
        AppError::Forbidden => "forbidden"@,
        AppError::BadRequest(m) => "bad request: "@ + m@,
        AppError::Database(m) => "database error: "@ + m@,
        AppError::Migration(m) => "migration error: "@ + m@,
    }
}

impl AppError {
    /// The HTTP status code answered for this error.
    pub fn status(&self) -> (r: u16)
        ensures
            r == status_of(*self),
    {
        match self {
            AppError::NotFound => 404,
            AppError::Forbidden => 403,
            AppError::BadRequest(_) => 400,
            _ => 500,
        }
    }

    /// The message shown for this error.
    pub fn message(&self) -> (r: String)
        ensures
            r@ == message_of(*self),
    {
        let mut r = String::new();
        match self {
            AppError::Template(m) => {
                push_str(&mut r, "template error: ");
                push_str(&mut r, m.as_str());
            },
            AppError::Io(m) => {
                push_str(&mut r, "io error: ");
                push_str(&mut r, m.as_str());
            },
            AppError::Internal(m) => {
                push_str(&mut r, "internal error: ");
                push_str(&mut r, m.as_str());
            },
            AppError::NotFound => {
                push_str(&mut r, "not found");
            },
            AppError::Forbidden => {
                push_str(&mut r, "forbidden");
            },
            AppError::BadRequest(m) => {
                push_str(&mut r, "bad request: ");
                push_str(&mut r, m.as_str());
            },
            AppError::Database(m) => {
                push_str(&mut r, "database error: ");
                push_str(&mut r, m.as_str());
            },
            AppError::Migration(m) => {
                push_str(&mut r, "migration error: ");
                push_str(&mut r, m.as_str());
            },
        }
        r
    }
}

/// A JSON API error: HTTP status, the `error` code and, where the API
/// gives one, the `error_description`.
#[derive(Debug, Clone, Copy)]
pub struct ApiError {
    pub status: u16,
    pub error: &'static str,
    pub description: Option<&'static str>,
}

/// The error of `e`, its status and its description as sequences.
pub open spec fn api_error_is(e: ApiError, status: u16, error: &'static str, description: &'static str) -> bool {
    &&& e.status == status
    &&& e.error@ == error@
    &&& e.description matches Some(d) && d@ == description@
}

/// A JSON error with a description.
pub fn api_error(status: u16, error: &'static str, description: &'static str) -> (r: ApiError)
    ensures
        api_error_is(r, status, error, description),
{
    ApiError { status, error, description: Some(description) }
}

/// A `400 Bad Request` OAuth error with a description.
pub fn oauth_error(error: &'static str, description: &'static str) -> (r: ApiError)
    ensures
        api_error_is(r, 400, error, description),
{
    api_error(400, error, description)
}

} // verus!

//! Application errors and how they are reported over HTTP.
use vstd::prelude::*;
use crate::text::str_equals;

verus! {

/// The category of an application error.
#[derive(Debug, Clone, Copy, PartialEq, Eq, Structural)]
pub enum ErrorKind {
    Validation,
    Conflict,
    Unauthorized,
    Forbidden,
    RateLimited,
    NotFound,
    Internal,
}

/// An application error with its human readable message.
#[derive(Debug, PartialEq, Eq)]
pub enum AppError {
    Validation(String),
    Conflict(String),
    Unauthorized(String),
    Forbidden(String),
    RateLimited(String),
    NotFound(String),
    Internal(String),
}

/// The result type of every fallible operation of the library.
pub type AppResult<T> = Result<T, AppError>;

/// `r` is an error of category `kind` with message `msg`.
pub open spec fn fails_with<T>(r: AppResult<T>, kind: ErrorKind, msg: Seq<char>) -> bool {
    r matches Err(e) && e.is(kind, msg)
}

impl AppError {
    pub open spec fn kind(self) -> ErrorKind {
        match self {
            AppError::Validation(_) => ErrorKind::Validation,
            AppError::Conflict(_) => ErrorKind::Conflict,
            AppError::Unauthorized(_) => ErrorKind::Unauthorized,
            AppError::Forbidden(_) => ErrorKind::Forbidden,
            AppError::RateLimited(_) => ErrorKind::RateLimited,
            AppError::NotFound(_) => ErrorKind::NotFound,
            AppError::Internal(_) => ErrorKind::Internal,
        }
    }

    pub open spec fn msg(self) -> Seq<char> {
        match self {
            AppError::Validation(m) => m@,
            AppError::Conflict(m) => m@,
            AppError::Unauthorized(m) => m@,
            AppError::Forbidden(m) => m@,
            AppError::RateLimited(m) => m@,
            AppError::NotFound(m) => m@,
            AppError::Internal(m) => m@,
        }
    }

    /// This error is of category `kind` and carries the message `msg`.
    pub open spec fn is(self, kind: ErrorKind, msg: Seq<char>) -> bool {
        self.kind() == kind && self.msg() == msg
    }

    /// The HTTP status code of a category.
    pub open spec fn status_of(kind: ErrorKind) -> u16 {
        match kind {
            ErrorKind::Validation => 400,
            ErrorKind::Conflict => 409,
            ErrorKind::Unauthorized => 401,
            ErrorKind::Forbidden => 403,
            ErrorKind::RateLimited => 429,
            ErrorKind::NotFound => 404,
            ErrorKind::Internal => 500,
        }
    }

    /// The machine readable code of a category.
    pub open spec fn code_of(kind: ErrorKind) -> Seq<char> {
        match kind {
            ErrorKind::Validation => "VALIDATION_ERROR"@,
            ErrorKind::Conflict => "CONFLICT"@,
            ErrorKind::Unauthorized => "UNAUTHORIZED"@,
            ErrorKind::Forbidden => "FORBIDDEN"@,
            ErrorKind::RateLimited => "RATE_LIMITED"@,
            ErrorKind::NotFound => "NOT_FOUND"@,
            ErrorKind::Internal => "INTERNAL_ERROR"@,
        }
    }

    /// Creates validation error with 400 status.
    pub fn validation(message: &str) -> (e: Self)
        ensures
            e.is(ErrorKind::Validation, message@),
    {
        AppError::Validation(message.to_owned())
    }

    /// Creates conflict error with 409 status.
    pub fn conflict(message: &str) -> (e: Self)
        ensures
            e.is(ErrorKind::Conflict, message@),
    {
        AppError::Conflict(message.to_owned())
    }

    /// Creates unauthorized error with 401 status.
    pub fn unauthorized(message: &str) -> (e: Self)
        ensures
            e.is(ErrorKind::Unauthorized, message@),
    {
        AppError::Unauthorized(message.to_owned())
    }

    /// Creates forbidden error with 403 status.
    pub fn forbidden(message: &str) -> (e: Self)
        ensures
            e.is(ErrorKind::Forbidden, message@),
    {
        AppError::Forbidden(message.to_owned())
    }

    /// Creates rate limited error with 429 status.
    pub fn rate_limited(message: &str) -> (e: Self)
        ensures
            e.is(ErrorKind::RateLimited, message@),
    {
        AppError::RateLimited(message.to_owned())
    }

    /// Creates not found error with 404 status.
    pub fn not_found(message: &str) -> (e: Self)
        ensures
            e.is(ErrorKind::NotFound, message@),
    {
        AppError::NotFound(message.to_owned())
    }

    /// Creates internal error with 500 status.
    pub fn internal(message: &str) -> (e: Self)
        ensures
            e.is(ErrorKind::Internal, message@),
    {
        AppError::Internal(message.to_owned())
    }

    /// The category of this error.
    pub fn error_kind(&self) -> (k: ErrorKind)
        ensures
            k == self.kind(),
    {
        match self {
            AppError::Validation(_) => ErrorKind::Validation,
            AppError::Conflict(_) => ErrorKind::Conflict,
            AppError::Unauthorized(_) => ErrorKind::Unauthorized,
            AppError::Forbidden(_) => ErrorKind::Forbidden,
            AppError::RateLimited(_) => ErrorKind::RateLimited,
            AppError::NotFound(_) => ErrorKind::NotFound,
            AppError::Internal(_) => ErrorKind::Internal,
        }
    }

    /// The HTTP status code that this error is answered with.
    pub fn status_code(&self) -> (s: u16)
        ensures
            s == Self::status_of(self.kind()),
    {
        match self {
            AppError::Validation(_) => 400,
            AppError::Conflict(_) => 409,
            AppError::Unauthorized(_) => 401,
            AppError::Forbidden(_) => 403,
            AppError::RateLimited(_) => 429,
            AppError::NotFound(_) => 404,
            AppError::Internal(_) => 500,
        }
    }

    /// The machine readable code of the error response body.
    pub fn code(&self) -> (c: &'static str)
        ensures
            c@ == Self::code_of(self.kind()),
    {
        match self {
            AppError::Validation(_) => "VALIDATION_ERROR",
            AppError::Conflict(_) => "CONFLICT",
            AppError::Unauthorized(_) => "UNAUTHORIZED",
            AppError::Forbidden(_) => "FORBIDDEN",
            AppError::RateLimited(_) => "RATE_LIMITED",
            AppError::NotFound(_) => "NOT_FOUND",
            AppError::Internal(_) => "INTERNAL_ERROR",
        }
    }

    /// The human readable message (what the error displays as).
    pub fn message(&self) -> (m: String)
        ensures
            m@ == self.msg(),
    {
        match self {
            AppError::Validation(m) => m.clone(),
            AppError::Conflict(m) => m.clone(),
            AppError::Unauthorized(m) => m.clone(),
            AppError::Forbidden(m) => m.clone(),
            AppError::RateLimited(m) => m.clone(),
            AppError::NotFound(m) => m.clone(),
            AppError::Internal(m) => m.clone(),
        }
    }

    /// A copy of this error.
    pub fn duplicate(&self) -> (e: Self)
        ensures
            e.kind() == self.kind(),
            e.msg() == self.msg(),
    {
        match self {
            AppError::Validation(m) => AppError::Validation(m.clone()),
            AppError::Conflict(m) => AppError::Conflict(m.clone()),
            AppError::Unauthorized(m) => AppError::Unauthorized(m.clone()),
            AppError::Forbidden(m) => AppError::Forbidden(m.clone()),
            AppError::RateLimited(m) => AppError::RateLimited(m.clone()),
            AppError::NotFound(m) => AppError::NotFound(m.clone()),
            AppError::Internal(m) => AppError::Internal(m.clone()),
        }
    }

    /// The internal error that a failed database call is reported as; `detail`
    /// is the database driver's own description of the failure.
    pub fn from_database_error(detail: &str) -> (e: Self)
        ensures
            e.is(ErrorKind::Internal, "database error: "@ + detail@),
    {
        let mut m = String::from_str("database error: ");
        m.append(detail);
        AppError::Internal(m)
    }
}

/// SQLSTATE of a unique constraint violation.
pub open spec fn unique_violation_code() -> Seq<char> {
    "23505"@
}

/// SQLSTATE of a foreign key constraint violation.
pub open spec fn foreign_key_violation_code() -> Seq<char> {
    "23503"@
}

/// Whether a database error with SQLSTATE `code` is a unique constraint violation.
pub fn is_unique_violation(code: Option<&str>) -> (b: bool)
    ensures
        b == (code is Some && code->0@ == unique_violation_code()),
{
    match code {
        Some(c) => str_equals(c, "23505"),
        None => false,
    }
}

/// Whether a database error with SQLSTATE `code` is a foreign key violation.
pub fn is_foreign_key_violation(code: Option<&str>) -> (b: bool)
    ensures
        b == (code is Some && code->0@ == foreign_key_violation_code()),
{
    match code {
        Some(c) => str_equals(c, "23503"),
        None => false,
    }
}

/// Maps a failed database call: a foreign key violation becomes `not_found`
/// with `not_found_message`, anything else the internal database error.
pub fn map_foreign_key_as_not_found(code: Option<&str>, detail: &str, not_found_message: &str) -> (e:
    AppError)
    ensures
        (code is Some && code->0@ == foreign_key_violation_code()) ==> e.is(
            ErrorKind::NotFound,
            not_found_message@,
        ),
        !(code is Some && code->0@ == foreign_key_violation_code()) ==> e.is(
            ErrorKind::Internal,
            "database error: "@ + detail@,
        ),
{
    if is_foreign_key_violation(code) {
        AppError::not_found(not_found_message)
    } else {
        AppError::from_database_error(detail)
    }
}

/// Maps a failed insert: a unique violation becomes `conflict` with
/// `conflict_message`, anything else the internal database error.
pub fn map_unique_as_conflict(code: Option<&str>, detail: &str, conflict_message: &str) -> (e:
    AppError)
    ensures
        (code is Some && code->0@ == unique_violation_code()) ==> e.is(
            ErrorKind::Conflict,
            conflict_message@,
        ),
        !(code is Some && code->0@ == unique_violation_code()) ==> e.is(
            ErrorKind::Internal,
            "database error: "@ + detail@,
        ),
{
    if is_unique_violation(code) {
        AppError::conflict(conflict_message)
    } else {
        AppError::from_database_error(detail)
    }
}

} // verus!

//! What a request can fail with.

use vstd::prelude::*;

use crate::text::{decimal, decimal_text, same_text};

verus! {

/// Everything a request can fail with.
#[derive(Debug)]
pub enum AppError {
    IdentityNotFound,
    NotFound(String),
    Unauthorized(String),
    Conflict(String),
    PreconditionFailed(String),
    Database(String),
    Pool(String),
    Crypto(String),
    Internal(String),
    Validation(String),
}

/// The result of a step of a request.
pub type AppResult<T> = Result<T, AppError>;

/// The value of an [`AppError`].
pub enum Failure {
    IdentityNotFound,
    NotFound(Seq<char>),
    Unauthorized(Seq<char>),
    Conflict(Seq<char>),
    PreconditionFailed(Seq<char>),
    Database(Seq<char>),
    Pool(Seq<char>),
    Crypto(Seq<char>),
    Internal(Seq<char>),
    Validation(Seq<char>),
}

impl View for AppError {
    type V = Failure;

    open spec fn view(&self) -> Failure {
        match self {
            AppError::IdentityNotFound => Failure::IdentityNotFound,
            AppError::NotFound(m) => Failure::NotFound(m@),
            AppError::Unauthorized(m) => Failure::Unauthorized(m@),
            AppError::Conflict(m) => Failure::Conflict(m@),
            AppError::PreconditionFailed(m) => Failure::PreconditionFailed(m@),
            AppError::Database(m) => Failure::Database(m@),
            AppError::Pool(m) => Failure::Pool(m@),
            AppError::Crypto(m) => Failure::Crypto(m@),
            AppError::Internal(m) => Failure::Internal(m@),
            AppError::Validation(m) => Failure::Validation(m@),
        }
    }
}

/// The one answer to every failed proof of who is asking.
pub open spec fn refused() -> Failure {
    Failure::Unauthorized("unauthorized"@)
}

/// Builds [`refused`].
pub fn unauthorized() -> (e: AppError)
    ensures
        e@ == refused(),
{
    AppError::Unauthorized("unauthorized".to_string())
}

/// The value of a result that carries bytes.
pub open spec fn bytes_result(r: AppResult<Vec<u8>>) -> Result<Seq<u8>, Failure> {
    match r {
        Ok(b) => Ok(b@),
        Err(e) => Err(e@),
    }
}

/// The value of a result that carries nothing.
pub open spec fn unit_result(r: AppResult<()>) -> Result<(), Failure> {
    match r {
        Ok(_) => Ok(()),
        Err(e) => Err(e@),
    }
}

/// The HTTP status of a failure.
pub open spec fn failure_status(f: Failure) -> u16 {
    match f {
        Failure::IdentityNotFound => 404,
        Failure::NotFound(_) => 404,
        Failure::Unauthorized(_) => 401,
        Failure::Conflict(_) => 409,
        Failure::PreconditionFailed(_) => 412,
        Failure::Validation(_) => 400,
        Failure::Database(_) => 500,
        Failure::Pool(_) => 500,
        Failure::Crypto(_) => 500,
        Failure::Internal(_) => 500,
    }
}

/// The text of a failure, as the client reads it. The generic refusal is the
/// one word and no more.
pub open spec fn failure_text(f: Failure) -> Seq<char> {
    match f {
        Failure::IdentityNotFound => "identity not found"@,
        Failure::NotFound(m) => "not found: "@ + m,
        Failure::Unauthorized(m) => if m == "unauthorized"@ {
            "unauthorized"@
        } else {
            "unauthorized: "@ + m
        },
        Failure::Conflict(m) => "conflict: "@ + m,
        Failure::PreconditionFailed(m) => "precondition failed: "@ + m,
        Failure::Database(m) => "database error: "@ + m,
        Failure::Pool(m) => "connection pool error: "@ + m,
        Failure::Crypto(m) => "crypto error: "@ + m,
        Failure::Internal(m) => "internal error: "@ + m,
        Failure::Validation(m) => "validation error: "@ + m,
    }
}

fn labelled(label: &str, message: &String) -> (r: String)
    ensures
        r@ == label@ + message@,
{
    let mut s = label.to_string();
    s.push_str(message.as_str());
    s
}

/// A failed request as the client sees it.
pub struct ErrorResponse {
    pub status: u16,
    pub body: String,
}

impl AppError {
    /// The text of the error.
    pub fn text(&self) -> (r: String)
        ensures
            r@ == failure_text(self@),
    {
        match self {
            AppError::IdentityNotFound => "identity not found".to_string(),
            AppError::NotFound(m) => labelled("not found: ", m),
            AppError::Unauthorized(m) => if same_text(m.as_str(), "unauthorized") {
                "unauthorized".to_string()
            } else {
                labelled("unauthorized: ", m)
            },
            AppError::Conflict(m) => labelled("conflict: ", m),
            AppError::PreconditionFailed(m) => labelled("precondition failed: ", m),
            AppError::Database(m) => labelled("database error: ", m),
            AppError::Pool(m) => labelled("connection pool error: ", m),
            AppError::Crypto(m) => labelled("crypto error: ", m),
            AppError::Internal(m) => labelled("internal error: ", m),
            AppError::Validation(m) => labelled("validation error: ", m),
        }
    }

    /// The HTTP status and the text that answer a failed request.
    pub fn into_response(self) -> (r: ErrorResponse)
        ensures
            r.status == failure_status(self@),
            r.body@ == failure_text(self@),
    {
        let status: u16 = match &self {
            AppError::IdentityNotFound => 404,
            AppError::NotFound(_) => 404,
            AppError::Unauthorized(_) => 401,
            AppError::Conflict(_) => 409,
            AppError::PreconditionFailed(_) => 412,
            AppError::Validation(_) => 400,
            AppError::Database(_) => 500,
            AppError::Pool(_) => 500,
            AppError::Crypto(_) => 500,
            AppError::Internal(_) => 500,
        };
        ErrorResponse { status, body: self.text() }
    }
}

/// What is wrong with a field that is longer than it may be.
pub open spec fn too_long(name: Seq<char>, max: nat) -> Failure {
    Failure::Validation(name + " exceeds "@ + decimal_text(max) + " characters"@)
}

/// Whether a field keeps to its length, counted in characters.
pub open spec fn length_checked(name: Seq<char>, field: Seq<char>, max: nat) -> Result<(), Failure> {
    if field.len() > max {
        Err(too_long(name, max))
    } else {
        Ok(())
    }
}

/// Refuses a field of more than `max` characters.
pub fn validate_length(name: &str, field: &str, max: usize) -> (r: AppResult<()>)
    ensures
        unit_result(r) == length_checked(name@, field@, max as nat),
{
    if field.unicode_len() > max {
        let mut m = name.to_string();
        m.push_str(" exceeds ");
        m.push_str(decimal(max as u64).as_str());
        m.push_str(" characters");
        return Err(AppError::Validation(m));
    }
    Ok(())
}

} // verus!

//! The kinds of failure, their status codes on the request/response surface,
//! and their wording on the command channel.

use vstd::prelude::*;
use vstd::string::StringExecFns;

verus! {

/// Why an operation did not go through.
#[derive(Clone, Copy, Debug, PartialEq, Eq, Structural)]
pub enum ErrorKind {
    /// The account name is taken.
    Conflict,
    /// The credentials were not accepted.
    Unauthorized,
    /// A lookup found nothing.
    NotFound,
    /// An argument or parameter was malformed.
    ValidationError,
    /// The command is known but has no handler yet.
    NotImplemented,
    /// Storage failed, a stored hash is corrupt, or hashing or signing failed.
    InternalError,
}

/// A failure of an account endpoint: its kind and a short message for the body.
#[derive(Clone, Debug, PartialEq, Eq)]
pub struct ApiError {
    pub kind: ErrorKind,
    pub message: String,
}

/// A text result with the text taken by its characters.
pub open spec fn text_of(result: Result<String, ErrorKind>) -> Result<Seq<char>, ErrorKind> {
    match result {
        Ok(text) => Ok(text@),
        Err(kind) => Err(kind),
    }
}

/// The status code that answers a failure of kind `kind`.
pub open spec fn status_of(kind: ErrorKind) -> u16 {
    match kind {
        ErrorKind::Conflict => 409,
        ErrorKind::Unauthorized => 401,
        ErrorKind::NotFound => 404,
        ErrorKind::ValidationError => 400,
        ErrorKind::NotImplemented => 501,
        ErrorKind::InternalError => 500,
    }
}

/// The line that reports a failure of kind `kind` on the command channel.
pub open spec fn error_text(kind: ErrorKind) -> Seq<char> {
    match kind {
        ErrorKind::Conflict => "Error: name already taken"@,
        ErrorKind::Unauthorized => "Error: unauthorized"@,
        ErrorKind::NotFound => "Error: not found"@,
        ErrorKind::ValidationError => "Error: invalid ID"@,
        ErrorKind::NotImplemented => "Error: not implemented"@,
        ErrorKind::InternalError => "Error: internal error"@,
    }
}

/// The status code that answers a failure of kind `kind`.
pub fn status_code(kind: ErrorKind) -> (code: u16)
    ensures
        code == status_of(kind),
{
    match kind {
        ErrorKind::Conflict => 409,
        ErrorKind::Unauthorized => 401,
        ErrorKind::NotFound => 404,
        ErrorKind::ValidationError => 400,
        ErrorKind::NotImplemented => 501,
        ErrorKind::InternalError => 500,
    }
}

/// The line that reports a failure of kind `kind` on the command channel.
pub fn error_reply(kind: ErrorKind) -> (line: String)
    ensures
        line@ == error_text(kind),
{
    match kind {
        ErrorKind::Conflict => String::from_str("Error: name already taken"),
        ErrorKind::Unauthorized => String::from_str("Error: unauthorized"),
        ErrorKind::NotFound => String::from_str("Error: not found"),
        ErrorKind::ValidationError => String::from_str("Error: invalid ID"),
        ErrorKind::NotImplemented => String::from_str("Error: not implemented"),
        ErrorKind::InternalError => String::from_str("Error: internal error"),
    }
}

impl ApiError {
    /// A failure of kind `kind` with the body `message`.
    pub fn new(kind: ErrorKind, message: &str) -> (error: ApiError)
        ensures
            error.kind == kind,
            error.message@ == message@,
    {
        ApiError { kind, message: String::from_str(message) }
    }

    /// The status code of the response that carries this failure.
    pub fn status(&self) -> (code: u16)
        ensures
            code == status_of(self.kind),
    {
        status_code(self.kind)
    }
}

} // verus!

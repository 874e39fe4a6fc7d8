//! The uniform error taxonomy of the handlers, and its mapping to an HTTP
//! status code and a short message body.

use vstd::prelude::*;

verus! {

/// Everything a handler can fail with.
#[derive(Debug)]
pub enum AppError {
    /// A storage-level failure (for the in-memory store: a key collision).
    Database(String),
    /// A referenced entity (user, project or bug) is absent.
    NotFound(String),
    /// Malformed client input (a bad identifier, an empty update).
    BadRequest(String),
    /// Missing or invalid credential or token.
    Unauthorized(String),
}

impl AppError {
    /// The HTTP status code this error maps to.
    pub open spec fn spec_status_code(&self) -> u16 {
        match self {
            AppError::Database(_) => 500,
            AppError::NotFound(_) => 404,
            AppError::BadRequest(_) => 400,
            AppError::Unauthorized(_) => 401,
        }
    }

    /// The message body this error maps to: a fixed text for storage
    /// failures, the carried message otherwise.
    pub open spec fn spec_body(&self) -> Seq<char> {
        match self {
            AppError::Database(_) => "Database error occurred"@,
            AppError::NotFound(msg) => msg@,
            AppError::BadRequest(msg) => msg@,
            AppError::Unauthorized(msg) => msg@,
        }
    }

    /// Renders the error as the pair of HTTP status code and response body.
    pub fn error_response(&self) -> (r: (u16, String))
        ensures
            r.0 == self.spec_status_code(),
            r.1@ == self.spec_body(),
    {
        match self {
            AppError::Database(_) => (500, String::from_str("Database error occurred")),
            AppError::NotFound(msg) => (404, msg.clone()),
            AppError::BadRequest(msg) => (400, msg.clone()),
            AppError::Unauthorized(msg) => (401, msg.clone()),
        }
    }
}

} // verus!

use vstd::prelude::*;

use crate::text::join;

verus! {

/// Errors of the engine's commands. Failures of the store, the cache and the
/// HTTP client carry their outside error's message.
#[derive(Debug)]
pub enum EngineError {
    NotFound(String),
    BadRequest(String),
    Conflict(String),
    Database(String),
    Cache(String),
    Http(String),
    Internal(String),
}

/// The message an engine error shows.
pub open spec fn engine_error_text(e: EngineError) -> Seq<char> {
    match e {
        EngineError::NotFound(m) => "Not found: "@ + m@,
        EngineError::BadRequest(m) => "Bad request: "@ + m@,
        EngineError::Conflict(m) => "Conflict: "@ + m@,
        EngineError::Database(m) => "Database error: "@ + m@,
        EngineError::Cache(m) => "Cache error: "@ + m@,
        EngineError::Http(m) => "HTTP client error: "@ + m@,
        EngineError::Internal(m) => "Internal error: "@ + m@,
    }
}

impl EngineError {
    /// The message this error shows.
    pub fn message(&self) -> (r: String)
        ensures
            r@ == engine_error_text(*self),
    {
        match self {
            EngineError::NotFound(m) => join("Not found: ", m.as_str()),
            EngineError::BadRequest(m) => join("Bad request: ", m.as_str()),
            EngineError::Conflict(m) => join("Conflict: ", m.as_str()),
            EngineError::Database(m) => join("Database error: ", m.as_str()),
            EngineError::Cache(m) => join("Cache error: ", m.as_str()),
            EngineError::Http(m) => join("HTTP client error: ", m.as_str()),
            EngineError::Internal(m) => join("Internal error: ", m.as_str()),
        }
    }
}

/// The error an HTTP handler answers with.
#[derive(Debug)]
pub enum HttpError {
    NotFound { resource: String },
    BadRequest { message: String },
    Conflict { message: String },
    Internal { message: String },
}

/// How a handler answers a failed command: not-found, bad-request and conflict
/// keep their message; every other error becomes an internal error showing its message.
pub fn to_http_error(e: EngineError) -> (r: HttpError)
    ensures
        match e {
            EngineError::NotFound(m) => r matches HttpError::NotFound { resource } && resource
                == m,
            EngineError::BadRequest(m) => r matches HttpError::BadRequest { message } && message
                == m,
            EngineError::Conflict(m) => r matches HttpError::Conflict { message } && message
                == m,
            _ => r matches HttpError::Internal { message } && message@ == engine_error_text(e),
        },
{
    match e {
        EngineError::NotFound(m) => HttpError::NotFound { resource: m },
        EngineError::BadRequest(m) => HttpError::BadRequest { message: m },
        EngineError::Conflict(m) => HttpError::Conflict { message: m },
        other => HttpError::Internal { message: other.message() },
    }
}

} // verus!

//! The failures that the server reports, and the HTTP status each one maps to.

use vstd::prelude::*;

verus! {

/// A failure of a request or of an ingestion session.
///
/// Variants that stand for a collaborator's failure carry its description as
/// text, which is logged on the server and never sent to the client.
#[derive(Debug, Clone, PartialEq, Eq)]
pub enum ApiError {
    /// A local I/O failure.
    Io(String),
    /// The relational store failed.
    Db(String),
    /// An outbound HTTP request failed.
    Reqwest(String),
    /// A feed could not be read.
    Rss(String),
    /// The addressed entity does not exist.
    NotFound,
    /// The credential is missing, invalid, or lacks the needed privilege.
    Unauthorized,
    /// The transport under a session failed.
    Axum(String),
    /// A frame was missing or out of order in a session.
    InvalidWSMessage,
    /// A control message was not well-formed.
    SerdeJson(String),
    /// Metadata extraction failed.
    Symphonia(String),
    /// The storage backend failed.
    OpenDal(String),
    /// What the client sent is well-formed and not acceptable.
    Validation(String),
}

/// How a storage backend's failure counts.
#[derive(Debug, Clone, Copy, PartialEq, Eq, Structural)]
pub enum BackendErrorKind {
    /// The backend does not hold what was asked for.
    NotFound,
    /// Anything else.
    Other,
}

/// Status of a response to a request that succeeded.
pub const STATUS_OK: u16 = 200;

/// Status of a response that carries part of an object.
pub const STATUS_PARTIAL_CONTENT: u16 = 206;

/// Status for a malformed request.
pub const STATUS_BAD_REQUEST: u16 = 400;

/// Status for a missing or insufficient credential.
pub const STATUS_UNAUTHORIZED: u16 = 401;

/// Status for an entity that does not exist.
pub const STATUS_NOT_FOUND: u16 = 404;

/// Status for every failure that has no status of its own.
pub const STATUS_INTERNAL_SERVER_ERROR: u16 = 500;

impl ApiError {
    /// The failure that a storage backend's failure amounts to: what the
    /// backend does not hold does not exist, and anything else is the
    /// backend's failure, with `detail` for the server's log.
    pub fn from_backend(kind: BackendErrorKind, detail: String) -> (error: ApiError)
        ensures
            match kind {
                BackendErrorKind::NotFound => error == ApiError::NotFound,
                BackendErrorKind::Other => error matches ApiError::OpenDal(text) && text@
                    == detail@,
            },
    {
        match kind {
            BackendErrorKind::NotFound => ApiError::NotFound,
            BackendErrorKind::Other => ApiError::OpenDal(detail),
        }
    }

    /// The HTTP status that answers this failure.
    pub open spec fn status(self) -> u16 {
        match self {
            ApiError::NotFound => STATUS_NOT_FOUND,
            ApiError::Unauthorized => STATUS_UNAUTHORIZED,
            ApiError::SerdeJson(_) => STATUS_BAD_REQUEST,
            ApiError::Validation(_) => STATUS_BAD_REQUEST,
            _ => STATUS_INTERNAL_SERVER_ERROR,
        }
    }

    /// The body text that answers this failure. It names the class of the
    /// failure and nothing of its cause.
    pub open spec fn body(self) -> Seq<char> {
        match self {
            ApiError::NotFound => "not found"@,
            ApiError::Unauthorized => "unauthorized"@,
            ApiError::SerdeJson(_) => "invalid json"@,
            ApiError::Validation(_) => "invalid request"@,
            _ => "internal server error"@,
        }
    }

    /// The status code with which the server answers this failure.
    pub fn status_code(&self) -> (code: u16)
        ensures
            code == self.status(),
    {
        match self {
            ApiError::NotFound => STATUS_NOT_FOUND,
            ApiError::Unauthorized => STATUS_UNAUTHORIZED,
            ApiError::SerdeJson(_) => STATUS_BAD_REQUEST,
            ApiError::Validation(_) => STATUS_BAD_REQUEST,
            _ => STATUS_INTERNAL_SERVER_ERROR,
        }
    }

    /// The body with which the server answers this failure.
    pub fn body_text(&self) -> (text: &'static str)
        ensures
            text@ == self.body(),
    {
        match self {
            ApiError::NotFound => "not found",
            ApiError::Unauthorized => "unauthorized",
            ApiError::SerdeJson(_) => "invalid json",
            ApiError::Validation(_) => "invalid request",
            _ => "internal server error",
        }
    }
}

} // verus!

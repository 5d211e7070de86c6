//! The kinds of failure that a front door reports and how each is shown to a
//! client.

use vstd::prelude::*;
use vstd::string::*;
use crate::text::joined;

verus! {

/// Why a submission was turned down.
#[derive(Clone, Copy, Debug, PartialEq, Eq, Structural)]
pub enum ValidationError {
    EmptyLanguage,
    EmptyCode,
    CodeTooLarge,
    TimeoutOutOfRange,
}

impl ValidationError {
    pub open spec fn text(self) -> Seq<char> {
        match self {
            ValidationError::EmptyLanguage => "language must not be empty"@,
            ValidationError::EmptyCode => "code must not be empty"@,
            ValidationError::CodeTooLarge => "code exceeds the size limit"@,
            ValidationError::TimeoutOutOfRange => "timeout_seconds must be between 1 and 300"@,
        }
    }

    /// The reason as the client reads it.
    pub fn message(&self) -> (text: &'static str)
        ensures
            text@ == self.text(),
    {
        match self {
            ValidationError::EmptyLanguage => "language must not be empty",
            ValidationError::EmptyCode => "code must not be empty",
            ValidationError::CodeTooLarge => "code exceeds the size limit",
            ValidationError::TimeoutOutOfRange => "timeout_seconds must be between 1 and 300",
        }
    }
}

/// What can go wrong at a front door. The store, the decoder and everything
/// else are named by the message they failed with.
#[derive(Debug)]
pub enum ServiceError {
    NotFound,
    Validation(ValidationError),
    Redis(String),
    Serialization(String),
    Internal(String),
}

/// A failure as contracts speak of it.
pub enum ServiceErrorView {
    NotFound,
    Validation(ValidationError),
    Redis(Seq<char>),
    Serialization(Seq<char>),
    Internal(Seq<char>),
}

impl View for ServiceError {
    type V = ServiceErrorView;

    open spec fn view(&self) -> ServiceErrorView {
        match *self {
            ServiceError::NotFound => ServiceErrorView::NotFound,
            ServiceError::Validation(e) => ServiceErrorView::Validation(e),
            ServiceError::Redis(m) => ServiceErrorView::Redis(m@),
            ServiceError::Serialization(m) => ServiceErrorView::Serialization(m@),
            ServiceError::Internal(m) => ServiceErrorView::Internal(m@),
        }
    }
}

/// The status line and the message of the body that answer a failed request.
#[derive(Debug)]
pub struct ErrorResponse {
    pub status: u16,
    pub message: String,
}

impl ServiceErrorView {
    /// The HTTP status of a failure: 400 for a rejected submission, 404 for a
    /// missing record, 500 for everything else.
    pub open spec fn status(self) -> u16 {
        match self {
            ServiceErrorView::NotFound => 404,
            ServiceErrorView::Validation(_) => 400,
            _ => 500,
        }
    }

    /// What the client is told. The cause of a server-side failure is not
    /// among it.
    pub open spec fn public_text(self) -> Seq<char> {
        match self {
            ServiceErrorView::NotFound => "Not found"@,
            ServiceErrorView::Validation(e) => e.text(),
            ServiceErrorView::Redis(_) => "Database error"@,
            ServiceErrorView::Serialization(_) => "Serialization error"@,
            ServiceErrorView::Internal(_) => "Internal error"@,
        }
    }

    /// What the log is told.
    pub open spec fn full_text(self) -> Seq<char> {
        match self {
            ServiceErrorView::NotFound => "Not found"@,
            ServiceErrorView::Validation(e) => "Validation error: "@ + e.text(),
            ServiceErrorView::Redis(m) => "Redis error: "@ + m,
            ServiceErrorView::Serialization(m) => "Serialization error: "@ + m,
            ServiceErrorView::Internal(m) => "Internal error: "@ + m,
        }
    }
}

impl ServiceError {
    /// The HTTP status of the failure.
    pub fn status_code(&self) -> (code: u16)
        ensures
            code == self@.status(),
    {
        match self {
            ServiceError::NotFound => 404,
            ServiceError::Validation(_) => 400,
            _ => 500,
        }
    }

    /// What the client is told of the failure.
    pub fn public_message(&self) -> (text: &'static str)
        ensures
            text@ == self@.public_text(),
    {
        match self {
            ServiceError::NotFound => "Not found",
            ServiceError::Validation(e) => e.message(),
            ServiceError::Redis(_) => "Database error",
            ServiceError::Serialization(_) => "Serialization error",
            ServiceError::Internal(_) => "Internal error",
        }
    }

    /// What the log is told of the failure.
    pub fn message(&self) -> (text: String)
        ensures
            text@ == self@.full_text(),
    {
        match self {
            ServiceError::NotFound => String::from_str("Not found"),
            ServiceError::Validation(e) => joined("Validation error: ", e.message()),
            ServiceError::Redis(m) => joined("Redis error: ", m.as_str()),
            ServiceError::Serialization(m) => joined("Serialization error: ", m.as_str()),
            ServiceError::Internal(m) => joined("Internal error: ", m.as_str()),
        }
    }

    /// The answer to the request that failed.
    pub fn into_response(self) -> (response: ErrorResponse)
        ensures
            response.status == self@.status(),
            response.message@ == self@.public_text(),
    {
        let status = self.status_code();
        let message = String::from_str(self.public_message());
        ErrorResponse { status, message }
    }
}

} // verus!

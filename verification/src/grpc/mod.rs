//! The RPC front door: what a call is answered with when it fails, and the
//! check of the authorization header.

pub mod server;

use vstd::prelude::*;
use vstd::string::*;
use crate::text::joined;

verus! {

/// The codes that the RPC surface answers a failed call with.
#[derive(Clone, Copy, Debug, PartialEq, Eq, Structural)]
pub enum StatusCode {
    InvalidArgument,
    NotFound,
    Unauthenticated,
    Unimplemented,
    Internal,
}

/// The answer to a call that failed.
#[derive(Debug)]
pub struct Status {
    pub code: StatusCode,
    pub message: String,
}

/// An answer to a failed call as contracts speak of it.
pub struct StatusView {
    pub code: StatusCode,
    pub message: Seq<char>,
}

impl View for Status {
    type V = StatusView;

    open spec fn view(&self) -> StatusView {
        StatusView { code: self.code, message: self.message@ }
    }
}

impl Status {
    /// An answer with a code and a message.
    pub fn new(code: StatusCode, message: &str) -> (status: Status)
        ensures
            status@ == (StatusView { code, message: message@ }),
    {
        Status { code, message: String::from_str(message) }
    }
}

/// A failure that can be turned into the answer to a call.
pub trait IntoStatus: Sized {
    /// The answer that the failure is turned into.
    spec fn status(self) -> StatusView;

    fn into_status(self) -> (status: Status)
        ensures
            status@ == self.status(),
    ;
}

/// The failures behind the RPC surface, by where they came from.
#[derive(Debug)]
pub enum RpcFailure {
    /// Anything not named below, with its message.
    Other { message: String },
    /// The database has no such row.
    RowNotFound,
    /// The database failed in any other way.
    Database,
    /// The store that holds the queue failed.
    Queue,
}

impl IntoStatus for RpcFailure {
    /// A missing row is reported as not found. Every other failure is
    /// internal; only one that is not the database's or the queue's shows
    /// its message.
    open spec fn status(self) -> StatusView {
        match self {
            RpcFailure::Other { message } => StatusView {
                code: StatusCode::Internal,
                message: "Internal error: "@ + message@,
            },
            RpcFailure::RowNotFound => StatusView {
                code: StatusCode::NotFound,
                message: "Resource not found"@,
            },
            RpcFailure::Database => StatusView {
                code: StatusCode::Internal,
                message: "Database error"@,
            },
            RpcFailure::Queue => StatusView {
                code: StatusCode::Internal,
                message: "Queue error"@,
            },
        }
    }

    fn into_status(self) -> (status: Status) {
        match self {
            RpcFailure::Other { message } => Status {
                code: StatusCode::Internal,
                message: joined("Internal error: ", message.as_str()),
            },
            RpcFailure::RowNotFound => Status::new(StatusCode::NotFound, "Resource not found"),
            RpcFailure::Database => Status::new(StatusCode::Internal, "Database error"),
            RpcFailure::Queue => Status::new(StatusCode::Internal, "Queue error"),
        }
    }
}

/// The authorization header of a call, as far as it could be read.
#[derive(Debug)]
pub enum AuthHeader {
    /// The call carries none.
    Missing,
    /// The call carries one that is no text.
    Opaque,
    /// The text of the header.
    Text { value: String },
}

/// A header as contracts speak of it.
pub enum AuthHeaderView {
    Missing,
    Opaque,
    Text { value: Seq<char> },
}

impl View for AuthHeader {
    type V = AuthHeaderView;

    open spec fn view(&self) -> AuthHeaderView {
        match *self {
            AuthHeader::Missing => AuthHeaderView::Missing,
            AuthHeader::Opaque => AuthHeaderView::Opaque,
            AuthHeader::Text { value } => AuthHeaderView::Text { value: value@ },
        }
    }
}

/// What stands before the token in the header.
pub open spec fn bearer_prefix() -> Seq<char> {
    "Bearer "@
}

/// Why a call is not let through, if it is not: it carries no header, one
/// that is no text, one that does not begin with the bearer prefix, or one
/// with nothing after the prefix.
pub open spec fn auth_failure(header: AuthHeaderView) -> Option<Seq<char>> {
    match header {
        AuthHeaderView::Missing => Some("Missing authorization header"@),
        AuthHeaderView::Opaque => Some("Invalid authorization header"@),
        AuthHeaderView::Text { value } => if !bearer_prefix().is_prefix_of(value) {
            Some("Invalid authorization format"@)
        } else if value.len() == bearer_prefix().len() {
            Some("Invalid token"@)
        } else {
            None
        },
    }
}

/// Whether `text` begins with the bearer prefix.
pub fn has_bearer_prefix(text: &str) -> (b: bool)
    ensures
        b == bearer_prefix().is_prefix_of(text@),
{
    proof {
        reveal_strlit("Bearer ");
    }
    let prefix = "Bearer ";
    if text.unicode_len() < 7 {
        return false;
    }
    let mut i: usize = 0;
    while i < 7
        invariant
            i <= 7,
            prefix@ == bearer_prefix(),
            prefix@.len() == 7,
            text@.len() >= 7,
            forall|k: int| 0 <= k < i ==> text@[k] == prefix@[k],
        decreases 7 - i,
    {
        if text.get_char(i) != prefix.get_char(i) {
            return false;
        }
        i += 1;
    }
    true
}

/// Checks the authorization header of each call.
#[derive(Debug)]
pub struct AuthInterceptor {
    auth_service_url: String,
}

impl Clone for AuthInterceptor {
    fn clone(&self) -> (copy: AuthInterceptor)
        ensures
            copy.url() == self.url(),
    {
        AuthInterceptor { auth_service_url: self.auth_service_url.clone() }
    }
}

impl AuthInterceptor {
    pub closed spec fn url(&self) -> Seq<char> {
        self.auth_service_url@
    }

    /// An interceptor that knows where the authorization service is.
    pub fn new(auth_service_url: String) -> (interceptor: AuthInterceptor)
        ensures
            interceptor.url() == auth_service_url@,
    {
        AuthInterceptor { auth_service_url }
    }

    /// Where the authorization service is.
    pub fn auth_service_url(&self) -> (url: &str)
        ensures
            url@ == self.url(),
    {
        self.auth_service_url.as_str()
    }

    /// Lets a call through exactly when its header is text that begins with
    /// the bearer prefix and carries a token after it. Any other call is
    /// answered as unauthenticated, with the reason.
    pub fn intercept(&self, header: &AuthHeader) -> (checked: Result<(), Status>)
        ensures
            match auth_failure(header@) {
                Some(reason) => checked matches Err(status) && status@ == (StatusView {
                    code: StatusCode::Unauthenticated,
                    message: reason,
                }),
                None => checked is Ok,
            },
    {
        match header {
            AuthHeader::Missing => Err(
                Status::new(StatusCode::Unauthenticated, "Missing authorization header"),
            ),
            AuthHeader::Opaque => Err(
                Status::new(StatusCode::Unauthenticated, "Invalid authorization header"),
            ),
            AuthHeader::Text { value } => {
                proof {
                    reveal_strlit("Bearer ");
                }
                if !has_bearer_prefix(value.as_str()) {
                    Err(Status::new(StatusCode::Unauthenticated, "Invalid authorization format"))
                } else if value.as_str().unicode_len() == 7 {
                    Err(Status::new(StatusCode::Unauthenticated, "Invalid token"))
                } else {
                    Ok(())
                }
            },
        }
    }
}

} // verus!

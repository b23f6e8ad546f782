//! Errors of the OAuth 2.0 authorization server, named after RFC 6749.

use vstd::prelude::*;
use vstd::string::*;

use crate::text::join3;

verus! {

/// The kind of an OAuth error, as it is reported to clients.
#[derive(Clone, Copy, Debug, PartialEq, Eq, Structural)]
pub enum ErrorKind {
    InvalidRequest,
    InvalidClient,
    InvalidGrant,
    InvalidScope,
    InvalidRedirectUri,
    UnauthorizedClient,
    UnsupportedGrantType,
    UnsupportedResponseType,
    AccessDenied,
    ServerError,
    TemporarilyUnavailable,
    Unknown,
}

/// The code under which a kind is reported (`error` field of RFC 6749).
pub open spec fn error_code(kind: ErrorKind) -> Seq<char> {
    match kind {
        ErrorKind::InvalidRequest => "invalid_request"@,
        ErrorKind::InvalidClient => "invalid_client"@,
        ErrorKind::InvalidGrant => "invalid_grant"@,
        ErrorKind::InvalidScope => "invalid_scope"@,
        ErrorKind::InvalidRedirectUri => "invalid_redirect_uri"@,
        ErrorKind::UnauthorizedClient => "unauthorized_client"@,
        ErrorKind::UnsupportedGrantType => "unsupported_grant_type"@,
        ErrorKind::UnsupportedResponseType => "unsupported_response_type"@,
        ErrorKind::AccessDenied => "access_denied"@,
        ErrorKind::ServerError => "server_error"@,
        ErrorKind::TemporarilyUnavailable => "temporarily_unavailable"@,
        ErrorKind::Unknown => "unknown"@,
    }
}

/// The HTTP status that an error of the kind is answered with
/// (RFC 6749, section 5.2): unauthorized for a client that failed to
/// authenticate, the server's own errors and unavailability as such, and a
/// bad request for the rest.
pub open spec fn error_status(kind: ErrorKind) -> u16 {
    match kind {
        ErrorKind::InvalidClient => 401,
        ErrorKind::ServerError => 500,
        ErrorKind::Unknown => 500,
        ErrorKind::TemporarilyUnavailable => 503,
        _ => 400,
    }
}

impl ErrorKind {
    /// The HTTP status that an error of this kind is answered with.
    pub fn status_code(&self) -> (r: u16)
        ensures
            r == error_status(*self),
    {
        match self {
            ErrorKind::InvalidClient => 401,
            ErrorKind::ServerError => 500,
            ErrorKind::Unknown => 500,
            ErrorKind::TemporarilyUnavailable => 503,
            _ => 400,
        }
    }

    /// The code under which this kind is reported.
    pub fn code(&self) -> (r: &'static str)
        ensures
            r@ == error_code(*self),
    {
        match self {
            ErrorKind::InvalidRequest => "invalid_request",
            ErrorKind::InvalidClient => "invalid_client",
            ErrorKind::InvalidGrant => "invalid_grant",
            ErrorKind::InvalidScope => "invalid_scope",
            ErrorKind::InvalidRedirectUri => "invalid_redirect_uri",
            ErrorKind::UnauthorizedClient => "unauthorized_client",
            ErrorKind::UnsupportedGrantType => "unsupported_grant_type",
            ErrorKind::UnsupportedResponseType => "unsupported_response_type",
            ErrorKind::AccessDenied => "access_denied",
            ErrorKind::ServerError => "server_error",
            ErrorKind::TemporarilyUnavailable => "temporarily_unavailable",
            ErrorKind::Unknown => "unknown",
        }
    }
}

/// An OAuth error: its kind and a human-readable description.
#[derive(Debug)]
pub struct Error {
    kind: ErrorKind,
    description: String,
}

/// The abstract value of an [`Error`].
pub struct ErrorView {
    pub kind: ErrorKind,
    pub description: Seq<char>,
}

impl View for Error {
    type V = ErrorView;

    closed spec fn view(&self) -> ErrorView {
        ErrorView { kind: self.kind, description: self.description@ }
    }
}

/// The text form of an error: its code in quotes, a colon and its description.
pub open spec fn error_text(e: ErrorView) -> Seq<char> {
    seq!['"'] + error_code(e.kind) + "\": "@ + e.description
}

impl Error {
    /// An error of the given kind and description.
    pub fn new(kind: ErrorKind, description: String) -> (r: Error)
        ensures
            r@.kind == kind,
            r@.description == description@,
    {
        Error { kind, description }
    }

    /// The kind of the error.
    pub fn kind(&self) -> (r: &ErrorKind)
        ensures
            *r == self@.kind,
    {
        &self.kind
    }

    /// The description of the error.
    pub fn description(&self) -> (r: &str)
        ensures
            r@ == self@.description,
    {
        self.description.as_str()
    }

    /// The text form: `"code": description`.
    pub fn to_string(&self) -> (r: String)
        ensures
            r@ == error_text(self@),
    {
        let quote = "\"";
        let code = self.kind.code();
        let head = join3(quote, code, "\": ");
        proof {
            reveal_strlit("\"");
        }
        let r = head.concat(self.description.as_str());
        assert(r@ =~= error_text(self@));
        r
    }
}

impl Clone for Error {
    fn clone(&self) -> (r: Error)
        ensures
            r@ == self@,
    {
        Error { kind: self.kind, description: self.description.clone() }
    }
}

} // verus!

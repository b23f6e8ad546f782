//! Errors of requests to the store.

use vstd::prelude::*;
use vstd::string::*;

verus! {

/// The status a failed request reports when its answer carries none:
/// internal server error.
pub const INTERNAL_SERVER_ERROR: u16 = 500;

/// A failed request to the store: what went wrong, and the HTTP status of
/// the answer.
#[derive(Debug)]
pub struct Error {
    message: String,
    status: u16,
}

/// The abstract value of an [`Error`].
pub struct ErrorView {
    pub message: Seq<char>,
    pub status: u16,
}

impl View for Error {
    type V = ErrorView;

    closed spec fn view(&self) -> ErrorView {
        ErrorView { message: self.message@, status: self.status }
    }
}

impl Error {
    /// A failed request with the given message and the status of its
    /// answer; internal server error when the answer carried none.
    pub fn new(message: String, status: Option<u16>) -> (r: Error)
        ensures
            r@.message == message@,
            r@.status == match status {
                Some(s) => s,
                None => INTERNAL_SERVER_ERROR,
            },
    {
        let status = match status {
            Some(s) => s,
            None => INTERNAL_SERVER_ERROR,
        };
        Error { message, status }
    }

    /// The HTTP status of the answer.
    pub fn status(&self) -> (r: u16)
        ensures
            r == self@.status,
    {
        self.status
    }

    /// What went wrong, as text.
    pub fn to_string(&self) -> (r: String)
        ensures
            r@ == self@.message,
    {
        self.message.clone()
    }

    /// The same failure, told with another message.
    pub fn map_message(self, message: &str) -> (r: Error)
        ensures
            r@.message == message@,
            r@.status == self@.status,
    {
        Error { message: message.to_string(), status: self.status }
    }
}

} // verus!

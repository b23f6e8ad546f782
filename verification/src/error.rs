//! The registry's general error: a message, from text or from a failed
//! request to the store.

use vstd::prelude::*;
use vstd::string::*;

use crate::couchdb::error::Error as CouchError;

verus! {

/// A failure, told by its message.
#[derive(Debug)]
pub struct Error {
    message: String,
}

impl View for Error {
    type V = Seq<char>;

    closed spec fn view(&self) -> Seq<char> {
        self.message@
    }
}

impl Error {
    /// A failure with the given message.
    pub fn new(message: String) -> (r: Error)
        ensures
            r@ == message@,
    {
        Error { message }
    }

    /// The message of the failure.
    pub fn to_string(&self) -> (r: String)
        ensures
            r@ == self@,
    {
        self.message.clone()
    }

    /// The failure of a request to the store, told by the store's message.
    pub fn from_couch(err: CouchError) -> (r: Error)
        ensures
            r@ == err@.message,
    {
        Error { message: err.to_string() }
    }
}

impl From<String> for Error {
    fn from(message: String) -> (r: Error)
        ensures
            r@ == message@,
    {
        Error::new(message)
    }
}

impl vstd::std_specs::convert::FromSpecImpl<String> for Error {
    open spec fn obeys_from_spec() -> bool {
        false
    }

    open spec fn from_spec(v: String) -> Error {
        arbitrary()
    }
}

impl<'a> From<&'a str> for Error {
    fn from(message: &'a str) -> (r: Error)
        ensures
            r@ == message@,
    {
        Error::new(message.to_string())
    }
}

impl<'a> vstd::std_specs::convert::FromSpecImpl<&'a str> for Error {
    open spec fn obeys_from_spec() -> bool {
        false
    }

    open spec fn from_spec(v: &'a str) -> Error {
        arbitrary()
    }
}

impl From<CouchError> for Error {
    fn from(err: CouchError) -> (r: Error)
        ensures
            r@ == err@.message,
    {
        Error::from_couch(err)
    }
}

impl vstd::std_specs::convert::FromSpecImpl<CouchError> for Error {
    open spec fn obeys_from_spec() -> bool {
        false
    }

    open spec fn from_spec(v: CouchError) -> Error {
        arbitrary()
    }
}

} // verus!

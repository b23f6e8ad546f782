//! The connection settings of the store, and where its requests go.

use vstd::prelude::*;
use vstd::string::*;

use crate::couchdb::error::Error;

verus! {

/// What `url::Url::join` gives for a base URL (as text) and a path: the
/// serialization of the joined URL, or the description of the error.
pub uninterp spec fn url_join(base: Seq<char>, path: Seq<char>) -> Result<Seq<char>, Seq<char>>;

/// Calls `url::Url::parse` on the base and `Url::join` with the path: the
/// joined URL as text, or the parser's description of the error. The
/// contract names the outcome and does not restate URL resolution.
#[verifier::external_body]
fn join_url(base: &str, path: &str) -> (r: Result<String, String>)
    ensures
        match r {
            Ok(u) => url_join(base@, path@) == Ok::<Seq<char>, Seq<char>>(u@),
            Err(m) => url_join(base@, path@) == Err::<Seq<char>, Seq<char>>(m@),
        },
{
    match url::Url::parse(base) {
        Ok(b) => match b.join(path) {
            Ok(u) => Ok(u.to_string()),
            Err(e) => Err(e.to_string()),
        },
        Err(e) => Err(e.to_string()),
    }
}

/// Where and as whom the store is reached.
#[derive(Debug)]
pub struct Client {
    base_url: String,
    username: String,
    password: Option<String>,
}

/// The abstract value of a [`Client`].
pub struct ClientView {
    pub base_url: Seq<char>,
    pub username: Seq<char>,
    pub password: Option<Seq<char>>,
}

impl View for Client {
    type V = ClientView;

    closed spec fn view(&self) -> ClientView {
        ClientView { base_url: self.base_url@, username: self.username@, password: self.password.deep_view() }
    }
}

/// Whether a document exists, from the answer to asking for it: it does
/// when the store answered; it does not when the store found nothing; any
/// other failure stands.
pub open spec fn existence_outcome(answer: Result<(), Error>) -> Result<bool, Error> {
    match answer {
        Ok(()) => Ok(true),
        Err(e) => if e@.status == 404 {
            Ok(false)
        } else {
            Err(e)
        },
    }
}

impl Client {
    /// The store at the given URL, reached as the given user.
    pub fn new(base_url: String, username: String, password: String) -> (r: Client)
        ensures
            r@.base_url == base_url@,
            r@.username == username@,
            r@.password == Some(password@),
    {
        Client { base_url, username, password: Some(password) }
    }

    /// The user the store is reached as.
    pub fn username(&self) -> (r: &String)
        ensures
            r@ == self@.username,
    {
        &self.username
    }

    /// The password the store is reached with.
    pub fn password(&self) -> (r: Option<&String>)
        ensures
            match r {
                Some(p) => self@.password == Some(p@),
                None => self@.password is None,
            },
    {
        self.password.as_ref()
    }

    /// The URL of a path of the store: the path resolved against the
    /// store's URL.
    pub fn build_url(&self, path: &str) -> (r: Result<String, String>)
        ensures
            match r {
                Ok(u) => url_join(self@.base_url, path@) == Ok::<Seq<char>, Seq<char>>(u@),
                Err(m) => url_join(self@.base_url, path@) == Err::<Seq<char>, Seq<char>>(m@),
            },
    {
        join_url(self.base_url.as_str(), path)
    }
}

/// Whether a document exists, from the answer to asking for it.
pub fn existence(answer: Result<(), Error>) -> (r: Result<bool, Error>)
    ensures
        r == existence_outcome(answer),
{
    match answer {
        Ok(()) => Ok(true),
        Err(e) => {
            if e.status() == 404 {
                Ok(false)
            } else {
                Err(e)
            }
        },
    }
}

} // verus!

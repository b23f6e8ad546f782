//! OAuth clients: who may ask for authorizations, with which scopes and
//! redirect URIs.

use vstd::prelude::*;
use vstd::string::*;

use crate::oauth::scope::Scope;

verus! {

/// A registered client. A confidential client has a secret (stored as a
/// password hash); a public one has none. Redirect URIs are kept as the
/// serializations of parsed URLs.
#[derive(Debug)]
pub struct Client {
    client_id: String,
    client_secret: Option<String>,
    allowed_scopes: Scope,
    allowed_redirect_uris: Vec<String>,
}

/// The abstract value of a [`Client`].
pub struct ClientView {
    pub client_id: Seq<char>,
    pub client_secret: Option<Seq<char>>,
    pub allowed_scopes: Seq<Seq<char>>,
    pub allowed_redirect_uris: Seq<Seq<char>>,
}

impl View for Client {
    type V = ClientView;

    closed spec fn view(&self) -> ClientView {
        ClientView {
            client_id: self.client_id@,
            client_secret: self.client_secret.deep_view(),
            allowed_scopes: self.allowed_scopes@,
            allowed_redirect_uris: self.allowed_redirect_uris.deep_view(),
        }
    }
}

/// Whether a client must authenticate, and with which secret.
#[derive(Debug)]
pub enum ClientKind {
    /// A client without secret.
    Public,
    /// A client with a secret.
    Confidential { secret: String },
}

impl Client {
    /// A client with a secret.
    pub fn confidential(client_id: String, client_secret: String, allowed_scopes: Scope, allowed_redirect_uris: Vec<String>) -> (r: Client)
        ensures
            r@.client_id == client_id@,
            r@.client_secret == Some(client_secret@),
            r@.allowed_scopes == allowed_scopes@,
            r@.allowed_redirect_uris == allowed_redirect_uris.deep_view(),
    {
        Client { client_id, client_secret: Some(client_secret), allowed_scopes, allowed_redirect_uris }
    }

    /// A client without secret.
    pub fn public(client_id: String, allowed_scopes: Scope, allowed_redirect_uris: Vec<String>) -> (r: Client)
        ensures
            r@.client_id == client_id@,
            r@.client_secret == None::<Seq<char>>,
            r@.allowed_scopes == allowed_scopes@,
            r@.allowed_redirect_uris == allowed_redirect_uris.deep_view(),
    {
        Client { client_id, client_secret: None, allowed_scopes, allowed_redirect_uris }
    }

    /// The client's id.
    pub fn client_id(&self) -> (r: &String)
        ensures
            r@ == self@.client_id,
    {
        &self.client_id
    }

    /// The client's secret, if it has one.
    pub fn client_secret(&self) -> (r: Option<String>)
        ensures
            r.deep_view() == self@.client_secret,
    {
        match &self.client_secret {
            Some(s) => Some(s.clone()),
            None => None,
        }
    }

    /// The scopes that the client may ask for.
    pub fn allowed_scopes(&self) -> (r: &Scope)
        ensures
            r@ == self@.allowed_scopes,
    {
        &self.allowed_scopes
    }

    /// The redirect URIs that the client may use.
    pub fn allowed_redirect_uris(&self) -> (r: &Vec<String>)
        ensures
            r.deep_view() == self@.allowed_redirect_uris,
    {
        &self.allowed_redirect_uris
    }

    /// Whether the client is public or confidential.
    pub fn kind(&self) -> (r: ClientKind)
        ensures
            match r {
                ClientKind::Public => self@.client_secret is None,
                ClientKind::Confidential { secret } => self@.client_secret == Some(secret@),
            },
    {
        match &self.client_secret {
            Some(s) => ClientKind::Confidential { secret: s.clone() },
            None => ClientKind::Public,
        }
    }
}

impl Clone for Client {
    fn clone(&self) -> (r: Client)
        ensures
            r@ == self@,
    {
        let uris = self.allowed_redirect_uris.clone();
        proof {
            assert(uris.deep_view() =~= self.allowed_redirect_uris.deep_view());
        }
        Client {
            client_id: self.client_id.clone(),
            client_secret: match &self.client_secret {
                Some(s) => Some(s.clone()),
                None => None,
            },
            allowed_scopes: self.allowed_scopes.clone(),
            allowed_redirect_uris: uris,
        }
    }
}

} // verus!

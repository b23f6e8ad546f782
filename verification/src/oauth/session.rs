//! The session of an authorization: which client asks, with which scope,
//! on behalf of which user.

use vstd::prelude::*;
use vstd::string::*;

use crate::oauth::scope::Scope;

verus! {

/// The client and the scope that an authorization was granted for, and the
/// user who granted it, once known.
#[derive(Debug)]
pub struct Session {
    client_id: String,
    scope: Scope,
    user_id: Option<String>,
}

/// The abstract value of a [`Session`].
pub struct SessionView {
    pub client_id: Seq<char>,
    pub scope: Seq<Seq<char>>,
    pub user_id: Option<Seq<char>>,
}

impl View for Session {
    type V = SessionView;

    closed spec fn view(&self) -> SessionView {
        SessionView { client_id: self.client_id@, scope: self.scope@, user_id: self.user_id.deep_view() }
    }
}

impl Session {
    /// A session without client, scope or user.
    pub fn empty() -> (r: Session)
        ensures
            r@.client_id == Seq::<char>::empty(),
            r@.scope == Seq::<Seq<char>>::empty(),
            r@.user_id is None,
    {
        Session { client_id: String::new(), scope: Scope::empty(), user_id: None }
    }

    /// A session of the given client and scope, without user.
    pub fn new(client_id: String, scope: Scope) -> (r: Session)
        ensures
            r@.client_id == client_id@,
            r@.scope == scope@,
            r@.user_id is None,
    {
        Session { client_id, scope, user_id: None }
    }

    /// A session of the given client, with the empty scope and no user.
    pub fn for_client(client_id: String) -> (r: Session)
        ensures
            r@.client_id == client_id@,
            r@.scope == Seq::<Seq<char>>::empty(),
            r@.user_id is None,
    {
        Session { client_id, scope: Scope::empty(), user_id: None }
    }

    /// The user of the session, once known.
    pub fn user_id(&self) -> (r: Option<&String>)
        ensures
            match r {
                Some(u) => self@.user_id == Some(u@),
                None => self@.user_id is None,
            },
    {
        self.user_id.as_ref()
    }

    /// Sets the user of the session.
    pub fn set_user_id(&mut self, user_id: String) -> (r: &mut Self)
        ensures
            r@.user_id == Some(user_id@),
            r@.client_id == old(self)@.client_id,
            r@.scope == old(self)@.scope,
            *final(self) == *final(r),
    {
        self.user_id = Some(user_id);
        self
    }

    /// The client of the session.
    pub fn client_id(&self) -> (r: &String)
        ensures
            r@ == self@.client_id,
    {
        &self.client_id
    }

    /// Sets the client of the session.
    pub fn set_client_id(&mut self, client_id: String) -> (r: &mut Self)
        ensures
            r@.client_id == client_id@,
            r@.scope == old(self)@.scope,
            r@.user_id == old(self)@.user_id,
            *final(self) == *final(r),
    {
        self.client_id = client_id;
        self
    }

    /// The scope of the session.
    pub fn scope(&self) -> (r: &Scope)
        ensures
            r@ == self@.scope,
    {
        &self.scope
    }

    /// Sets the scope of the session.
    pub fn set_scope(&mut self, scope: Scope) -> (r: &mut Self)
        ensures
            r@.scope == scope@,
            r@.client_id == old(self)@.client_id,
            r@.user_id == old(self)@.user_id,
            *final(self) == *final(r),
    {
        self.scope = scope;
        self
    }
}

impl Clone for Session {
    fn clone(&self) -> (r: Session)
        ensures
            r@ == self@,
    {
        let user_id = match &self.user_id {
            Some(u) => Some(u.clone()),
            None => None,
        };
        Session { client_id: self.client_id.clone(), scope: self.scope.clone(), user_id }
    }
}

impl Default for Session {
    fn default() -> (r: Session)
        ensures
            r@.client_id == Seq::<char>::empty(),
            r@.scope == Seq::<Seq<char>>::empty(),
            r@.user_id is None,
    {
        Session::empty()
    }
}

} // verus!

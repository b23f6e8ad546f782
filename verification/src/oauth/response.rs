//! Answers of the authorization server.

use vstd::prelude::*;
use vstd::string::*;

use crate::oauth::code::AuthorizationCode;
use crate::oauth::scope::Scope;

verus! {

/// The answer to an authorization request: the code, and the client's
/// state handed back.
#[derive(Debug)]
pub struct AuthorizationResponse {
    code: AuthorizationCode,
    state: Option<String>,
}

impl AuthorizationResponse {
    /// The answer with the given code and state.
    pub fn new(code: AuthorizationCode, state: Option<String>) -> (r: AuthorizationResponse)
        ensures
            r.code()@ == code@,
            r.state_view() == state.deep_view(),
    {
        AuthorizationResponse { code, state }
    }

    /// The code of the answer.
    pub closed spec fn code(&self) -> AuthorizationCode {
        self.code
    }

    /// The state of the answer.
    pub closed spec fn state_view(&self) -> Option<Seq<char>> {
        self.state.deep_view()
    }

    /// The code handed out.
    pub fn authorization_code(&self) -> (r: &AuthorizationCode)
        ensures
            r@ == self.code()@,
    {
        &self.code
    }

    /// The client's state, handed back.
    pub fn state(&self) -> (r: Option<String>)
        ensures
            r.deep_view() == self.state_view(),
    {
        match &self.state {
            Some(s) => Some(s.clone()),
            None => None,
        }
    }
}

/// The type of the tokens handed out.
#[derive(Debug, PartialEq, Eq, Structural)]
pub enum TokenType {
    Bearer,
}

impl TokenType {
    /// The name of the token type, as it is answered.
    pub fn as_str(&self) -> (r: &'static str)
        ensures
            r@ == "bearer"@,
    {
        "bearer"
    }
}

impl Default for TokenType {
    fn default() -> (r: TokenType)
        ensures
            r == TokenType::Bearer,
    {
        TokenType::Bearer
    }
}

/// The answer to a token request (RFC 6749, section 5.1).
#[derive(Debug)]
pub struct TokenResponse {
    pub access_token: String,
    pub token_type: TokenType,
    pub expires_in: i64,
    pub refresh_token: Option<String>,
    pub scope: Scope,
}

} // verus!

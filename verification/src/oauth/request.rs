//! Requests to the authorization server.

use vstd::prelude::*;
use vstd::string::*;

use crate::oauth::scope::Scope;

verus! {

/// The response that an authorization request asks for.
#[derive(Debug, PartialEq, Eq, Structural)]
pub enum ResponseType {
    /// An authorization code.
    Code,
}

impl ResponseType {
    /// The response type named by a request parameter: every value reads as
    /// `code`, the only type served.
    pub fn from_string(typ: String) -> (r: ResponseType)
        ensures
            r == ResponseType::Code,
    {
        ResponseType::Code
    }

    /// The name of the response type.
    pub fn to_string(&self) -> (r: String)
        ensures
            r@ == "code"@,
    {
        String::from_str("code")
    }
}

impl From<String> for ResponseType {
    fn from(typ: String) -> ResponseType {
        ResponseType::from_string(typ)
    }
}

impl vstd::std_specs::convert::FromSpecImpl<String> for ResponseType {
    open spec fn obeys_from_spec() -> bool {
        true
    }

    open spec fn from_spec(v: String) -> ResponseType {
        ResponseType::Code
    }
}

/// A request for authorization (RFC 6749, section 4.1.1).
#[derive(Debug)]
pub struct AuthorizationRequest {
    pub response_type: ResponseType,
    pub client_id: String,
    pub redirect_uri: String,
    pub scope: Scope,
    pub state: Option<String>,
}

/// A request for tokens, by grant type.
#[derive(Debug)]
pub enum TokenRequest {
    /// Trading an authorization code (RFC 6749, section 4.1.3).
    AuthorizationCode {
        code: String,
        redirect_uri: String,
        client_id: Option<String>,
        client_secret: Option<String>,
    },
    /// Trading a refresh token (RFC 6749, section 6).
    RefreshToken {
        refresh_token: String,
        scope: Option<Scope>,
        client_id: Option<String>,
        client_secret: Option<String>,
    },
    /// Any other grant type.
    Unknown,
}

} // verus!

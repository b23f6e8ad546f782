//! The plain login form, and how malformed requests to it are answered.

pub mod error;

use vstd::prelude::*;

use crate::oauth::request::AuthorizationRequest;

verus! {

/// The login form as posted: the user's credentials and the authorization
/// request they answer.
#[derive(Debug)]
pub struct LoginFormBody {
    pub username: String,
    pub password: String,
    pub auth_request: AuthorizationRequest,
}

} // verus!

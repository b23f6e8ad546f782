//! What the storage of clients, codes and tokens decides about the answers
//! of the store.

use vstd::prelude::*;
use vstd::string::*;

use crate::couchdb::error::Error as CouchError;
use crate::oauth::error::{Error, ErrorKind};

verus! {

/// A failed request to the store, as the authorization server reports it:
/// a server error with the store's message.
pub fn map_couch_err(err: CouchError) -> (r: Error)
    ensures
        r@.kind == ErrorKind::ServerError,
        r@.description == err@.message,
{
    Error::new(ErrorKind::ServerError, err.to_string())
}

/// What is revoked.
#[derive(Debug, Clone, Copy, PartialEq, Eq, Structural)]
pub enum Revoked {
    AccessToken,
    RefreshToken,
    AuthorizationCode,
}

/// The error of revoking something that is not stored.
pub fn revoke_missing(what: Revoked) -> (r: Error)
    ensures
        r@.kind == ErrorKind::InvalidRequest,
        r@.description == match what {
            Revoked::AccessToken => "invalid access token"@,
            Revoked::RefreshToken => "invalid refresh token"@,
            Revoked::AuthorizationCode => "invalid authorization code"@,
        },
{
    let description = match what {
        Revoked::AccessToken => String::from_str("invalid access token"),
        Revoked::RefreshToken => String::from_str("invalid refresh token"),
        Revoked::AuthorizationCode => String::from_str("invalid authorization code"),
    };
    Error::new(ErrorKind::InvalidRequest, description)
}

} // verus!

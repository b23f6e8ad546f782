//! The user that a request's session is for.

use vstd::prelude::*;
use vstd::string::*;

use crate::guid::guid_parse;
use crate::guid::Guid;
use crate::http::error::{ApiError, ApiErrorView};
use crate::oauth::session::Session;

verus! {

/// The name of the user that a session is for: the id of the guid that the
/// session holds; unauthorized when the session names no user.
pub fn current_user_id(session: &Session) -> (r: Result<String, ApiError>)
    ensures
        match session@.user_id {
            Some(u) => r matches Ok(id) && id@ == guid_parse(u).id,
            None => r matches Err(e) && e@ == ApiErrorView::Unauthorized("unauthorized"@),
        },
{
    match session.user_id() {
        Some(u) => {
            let guid = Guid::parse(u.as_str());
            Ok(guid.id().to_string())
        },
        None => Err(ApiError::Unauthorized(String::from_str("unauthorized"))),
    }
}

/// The answer when the session's user is not found.
pub fn unknown_user() -> (r: ApiError)
    ensures
        r@ == ApiErrorView::Unauthorized("unauthorized"@),
{
    ApiError::Unauthorized(String::from_str("unauthorized"))
}

} // verus!

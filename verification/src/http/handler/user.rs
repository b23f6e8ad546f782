//! The bodies and parameters of the user endpoints, and their answers.

use vstd::prelude::*;
use vstd::string::*;

use crate::http::error::{ApiError, ApiErrorView};
use crate::text::join3;

verus! {

/// A user as the API shows it.
#[derive(Debug)]
pub struct UserResponse {
    pub username: String,
}

/// The query of the user listing: how many users, from which offset.
#[derive(Debug)]
pub struct ListQuery {
    limit: Option<usize>,
    offset: Option<usize>,
}

impl ListQuery {
    /// The query with the given limit and offset.
    pub fn new(limit: Option<usize>, offset: Option<usize>) -> (r: ListQuery)
        ensures
            r.limit_field() == limit,
            r.offset_field() == offset,
    {
        ListQuery { limit, offset }
    }

    /// The limit the request gave, if any.
    pub closed spec fn limit_field(&self) -> Option<usize> {
        self.limit
    }

    /// The offset the request gave, if any.
    pub closed spec fn offset_field(&self) -> Option<usize> {
        self.offset
    }

    /// How many users to list: the requested number, else 20.
    pub fn limit(&self) -> (r: usize)
        ensures
            r == match self.limit_field() {
                Some(l) => l,
                None => 20,
            },
    {
        match self.limit {
            Some(l) => l,
            None => 20,
        }
    }

    /// How many users to skip: the requested number, else none.
    pub fn offset(&self) -> (r: usize)
        ensures
            r == match self.offset_field() {
                Some(o) => o,
                None => 0,
            },
    {
        match self.offset {
            Some(o) => o,
            None => 0,
        }
    }
}

/// The user named in a path.
#[derive(Debug)]
pub struct UsernamePathParam {
    pub username: String,
}

/// The body of a registration: the new user's name, password and roles.
#[derive(Debug)]
pub struct Registration {
    pub username: String,
    pub password: String,
    pub roles: Option<Vec<String>>,
}

/// The answer to reading a user that does not exist.
pub fn user_not_found(username: &str) -> (r: ApiError)
    ensures
        r@ == ApiErrorView::NotFound("User "@ + username@ + " not found"@),
{
    ApiError::NotFound(join3("User ", username, " not found"))
}

/// The answer to deleting a user that does not exist: the bare name.
pub fn missing_user(username: &str) -> (r: ApiError)
    ensures
        r@ == ApiErrorView::NotFound(username@),
{
    ApiError::NotFound(username.to_string())
}

} // verus!

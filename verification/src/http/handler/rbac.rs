//! The bodies and parameters of the role and permission endpoints.

use vstd::prelude::*;
use vstd::string::*;

use crate::guid::{Guid, GuidView};

verus! {

/// The roles of a user.
#[derive(Debug)]
pub struct RoleResponse {
    pub username: String,
    pub roles: Vec<String>,
}

/// A user and one of their roles, named in a path.
#[derive(Debug)]
pub struct UserRolesPathParams {
    pub username: String,
    pub role: String,
}

/// A role named in a path.
#[derive(Debug)]
pub struct RolePathParam {
    pub role: String,
}

/// A permission: a subject (a user or a role) may perform an action on an
/// object.
#[derive(Debug)]
pub struct Permission {
    pub subject: Option<Guid>,
    pub object: Guid,
    pub action: String,
}

/// The subject under which a user's permissions are kept: `user:<name>`.
pub fn user_subject(username: &str) -> (r: Guid)
    ensures
        r@ == (GuidView { partition: Some("user"@), id: username@ }),
{
    proof {
        reveal_strlit("user");
    }
    Guid::partitioned("user", username)
}

/// The subject under which a role's permissions are kept: `role:<name>`.
pub fn role_subject(role: &str) -> (r: Guid)
    ensures
        r@ == (GuidView { partition: Some("role"@), id: role@ }),
{
    proof {
        reveal_strlit("role");
    }
    Guid::partitioned("role", role)
}

impl Permission {
    /// The same permission, granted to the given subject.
    pub fn with_subject(self, subject: Guid) -> (r: Permission)
        ensures
            r.subject matches Some(s) && s@ == subject@,
            r.object@ == self.object@,
            r.action@ == self.action@,
    {
        Permission { subject: Some(subject), object: self.object, action: self.action }
    }
}

} // verus!

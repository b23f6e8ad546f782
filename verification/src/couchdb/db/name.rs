//! The names of the databases that the registry keeps.

use vstd::prelude::*;

verus! {

/// The database of clients, codes and tokens.
pub const OAUTH: &'static str = "oauth";

/// The database of users.
pub const USERS: &'static str = "users";

/// The database of roles and permissions.
pub const RBAC: &'static str = "rbac";

} // verus!

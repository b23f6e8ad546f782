//! A fixed authorization code.

use vstd::prelude::*;
use vstd::string::*;

verus! {

/// The fixed code.
#[derive(Debug)]
pub struct AuthorizationCode;

impl AuthorizationCode {
    /// The text of the code: `code`.
    pub fn to_string(&self) -> (r: String)
        ensures
            r@ == "code"@,
    {
        String::from_str("code")
    }
}

} // verus!

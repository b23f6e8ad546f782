//! The status that the store reports about itself.

use vstd::prelude::*;

verus! {

/// The status that the store reports about itself (`"ok"` when it is up).
#[derive(Debug)]
pub struct Status {
    pub status: String,
}

} // verus!

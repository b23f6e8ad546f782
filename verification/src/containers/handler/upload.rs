//! The uploads' endpoints: their paths and queries.

use vstd::prelude::*;

verus! {

/// An upload named by its id in a path.
#[derive(Debug)]
pub struct UploadParams {
    pub upload_id: String,
}

/// The digest that a completed upload is stored under.
#[derive(Debug)]
pub struct DigestParams {
    pub digest: String,
}

} // verus!

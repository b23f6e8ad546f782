//! What the Docker registry's handlers decide.

pub mod manifest;

use vstd::prelude::*;
use vstd::string::*;

use crate::text::{join2, join3};

verus! {

/// The image coordinates in a request path.
#[derive(Debug)]
pub struct ImageNamePath {
    pub group: String,
    pub name: String,
}

/// The greeting of the test endpoint: `hello from Docker image group/name!`.
pub fn greeting(path: &ImageNamePath) -> (r: String)
    ensures
        r@ == "hello from Docker image "@ + path.group@ + "/"@ + path.name@ + "!"@,
{
    let head = join3("hello from Docker image ", path.group.as_str(), "/");
    let body = join2(head.as_str(), path.name.as_str());
    join2(body.as_str(), "!")
}

} // verus!

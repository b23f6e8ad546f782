//! What the registry's HTTP handlers decide: image coordinates from the
//! path, the repository as it is answered, the manifest kind asked for.

pub mod manifest;
pub mod repo;
pub mod upload;

use vstd::prelude::*;

use crate::containers::name::{Name, NameView};

verus! {

/// The image coordinates in a request path.
#[derive(Debug)]
pub struct NameParams {
    pub group: String,
    pub name: String,
}

impl NameParams {
    /// The image that the path names.
    pub fn into_name(self) -> (r: Name)
        ensures
            r@ == (NameView { group: self.group@, name: self.name@ }),
    {
        Name::new(self.group, self.name)
    }
}

impl From<NameParams> for Name {
    fn from(params: NameParams) -> (r: Name)
        ensures
            r@ == (NameView { group: params.group@, name: params.name@ }),
    {
        params.into_name()
    }
}

impl vstd::std_specs::convert::FromSpecImpl<NameParams> for Name {
    open spec fn obeys_from_spec() -> bool {
        false
    }

    open spec fn from_spec(v: NameParams) -> Name {
        arbitrary()
    }
}

} // verus!

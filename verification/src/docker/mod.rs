//! The Docker registry API (v2): image names, schema 2 manifests, and what
//! the handlers decide.

pub mod handler;
pub mod manifest;
pub mod mime;

use vstd::prelude::*;
use vstd::string::*;

use crate::containers::name::{is_valid_name, valid_name};

verus! {

/// Whether a group and a name are valid image coordinates: the name pattern
/// matches somewhere in each.
pub fn validate_name(group: &str, name: &str) -> (r: bool)
    ensures
        r == valid_name(group@, name@),
{
    is_valid_name(group, name)
}

/// The coordinates of an image.
#[derive(Debug)]
pub struct Name {
    group: String,
    name: String,
}

/// The abstract value of a [`Name`].
pub struct NameView {
    pub group: Seq<char>,
    pub name: Seq<char>,
}

impl View for Name {
    type V = NameView;

    closed spec fn view(&self) -> NameView {
        NameView { group: self.group@, name: self.name@ }
    }
}

impl Name {
    /// The image with the given group and name.
    pub fn new(group: String, name: String) -> (r: Name)
        ensures
            r@.group == group@,
            r@.name == name@,
    {
        Name { group, name }
    }

    /// The group of the image.
    pub fn group(&self) -> (r: &str)
        ensures
            r@ == self@.group,
    {
        self.group.as_str()
    }

    /// The name of the image.
    pub fn name(&self) -> (r: &str)
        ensures
            r@ == self@.name,
    {
        self.name.as_str()
    }
}

} // verus!

//! Repositories of images.

use vstd::prelude::*;
use vstd::string::*;

use crate::containers::name::{Name, NameView};
use crate::guid::{is_uuid_char, random_uuid, Guid, GuidView};

verus! {

/// A repository: a stored document with a guid, a revision once stored, and
/// the coordinates of its images.
#[derive(Debug)]
pub struct Repo {
    id: Guid,
    rev: Option<String>,
    group: String,
    name: String,
}

/// The abstract value of a [`Repo`].
pub struct RepoView {
    pub id: GuidView,
    pub rev: Option<Seq<char>>,
    pub group: Seq<char>,
    pub name: Seq<char>,
}

impl View for Repo {
    type V = RepoView;

    closed spec fn view(&self) -> RepoView {
        RepoView { id: self.id@, rev: self.rev.deep_view(), group: self.group@, name: self.name@ }
    }
}

impl Repo {
    /// The guid of the repository with the given id.
    pub fn build_guid(uuid: &str) -> (r: Guid)
        ensures
            r@.partition == Some("repo"@),
            r@.id == uuid@,
    {
        proof {
            reveal_strlit("repo");
        }
        Guid::partitioned("repo", uuid)
    }

    /// A new repository for the given coordinates, under a random id, not
    /// stored yet.
    pub fn new(name: Name) -> (r: Repo)
        ensures
            r@.id.partition == Some("repo"@),
            r@.id.id.len() == 36,
            forall|i: int| 0 <= i < r@.id.id.len() ==> is_uuid_char(#[trigger] r@.id.id[i]),
            r@.rev == None::<Seq<char>>,
            r@.group == name@.group,
            r@.name == name@.name,
    {
        let uuid = random_uuid();
        let id = Repo::build_guid(uuid.as_str());
        Repo { id, rev: None, group: String::from_str(name.group()), name: String::from_str(name.name()) }
    }

    /// A repository made of stored parts.
    pub fn from_parts(id: Guid, rev: Option<String>, group: String, name: String) -> (r: Repo)
        ensures
            r@.id == id@,
            r@.rev == rev.deep_view(),
            r@.group == group@,
            r@.name == name@,
    {
        Repo { id, rev, group, name }
    }

    /// The guid of the repository.
    pub fn id(&self) -> (r: &Guid)
        ensures
            r@ == self@.id,
    {
        &self.id
    }

    /// The revision of the stored document, once stored.
    pub fn rev(&self) -> (r: Option<String>)
        ensures
            r.deep_view() == self@.rev,
    {
        match &self.rev {
            Some(v) => Some(v.clone()),
            None => None,
        }
    }

    /// The coordinates of the repository.
    pub fn name(&self) -> (r: Name)
        ensures
            r@ == (NameView { group: self@.group, name: self@.name }),
    {
        Name::new(self.group.clone(), self.name.clone())
    }

    /// Records the revision of the stored document.
    pub fn set_rev(&mut self, rev: String) -> (r: &mut Self)
        ensures
            r@.rev == Some(rev@),
            r@.id == old(self)@.id,
            r@.group == old(self)@.group,
            r@.name == old(self)@.name,
            *final(self) == *final(r),
    {
        self.rev = Some(rev);
        self
    }
}

} // verus!

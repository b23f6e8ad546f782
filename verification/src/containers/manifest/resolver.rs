//! Manifests as they are stored: wrapped in a document with a guid.

use vstd::prelude::*;

use crate::guid::Guid;

verus! {

/// A stored document holding `doc`.
#[derive(Debug)]
pub struct CouchWrapper<T> {
    id: Guid,
    rev: Option<String>,
    doc: T,
}

impl<T> CouchWrapper<T> {
    /// A stored document with the given guid, revision and content.
    pub fn new(id: Guid, rev: Option<String>, doc: T) -> (r: CouchWrapper<T>)
        ensures
            r.id()@ == id@,
            r.rev_view() == rev.deep_view(),
            r.doc() == doc,
    {
        CouchWrapper { id, rev, doc }
    }

    /// The guid of the document.
    pub closed spec fn id(&self) -> Guid {
        self.id
    }

    /// The revision of the document.
    pub closed spec fn rev_view(&self) -> Option<Seq<char>> {
        self.rev.deep_view()
    }

    /// The content of the document.
    pub closed spec fn doc(&self) -> T {
        self.doc
    }

    /// The content, unwrapped.
    pub fn into_inner(self) -> (r: T)
        ensures
            r == self.doc(),
    {
        self.doc
    }
}

} // verus!

//! What the HTTP handlers decide, apart from the I/O they do.

pub mod oauth;
pub mod rbac;
pub mod user;

use vstd::prelude::*;
use vstd::string::*;

verus! {

/// The number of items a page holds when the request does not say.
pub const DEFAULT_LIMIT: usize = 20;

/// The query of a paginated listing: how many items, from where.
#[derive(Debug)]
pub struct PaginationQuery {
    limit: Option<usize>,
    cursor: Option<String>,
}

impl PaginationQuery {
    /// The query with the given limit and cursor.
    pub fn new(limit: Option<usize>, cursor: Option<String>) -> (r: PaginationQuery)
        ensures
            r.limit_field() == limit,
            r.cursor_field() == cursor.deep_view(),
    {
        PaginationQuery { limit, cursor }
    }

    /// The limit the request gave, if any.
    pub closed spec fn limit_field(&self) -> Option<usize> {
        self.limit
    }

    /// The cursor the request gave, if any.
    pub closed spec fn cursor_field(&self) -> Option<Seq<char>> {
        self.cursor.deep_view()
    }

    /// How many items the page holds: the requested number, else 20.
    pub fn limit(&self) -> (r: usize)
        ensures
            r == match self.limit_field() {
                Some(l) => l,
                None => DEFAULT_LIMIT,
            },
    {
        match self.limit {
            Some(l) => l,
            None => DEFAULT_LIMIT,
        }
    }

    /// Where the page starts, if the request said.
    pub fn cursor(&self) -> (r: Option<&String>)
        ensures
            match r {
                Some(c) => self.cursor_field() == Some(c@),
                None => self.cursor_field() is None,
            },
    {
        self.cursor.as_ref()
    }
}

} // verus!

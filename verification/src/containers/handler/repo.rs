//! The repositories' endpoints: their bodies, paths and answers.

use vstd::prelude::*;
use vstd::string::*;

use crate::containers::name::{name_text, Name};
use crate::containers::repo::Repo;
use crate::http::error::{ApiError, ApiErrorView};
use crate::text::join3;

verus! {

/// A repository as the API answers it.
#[derive(Debug)]
pub struct RepoResponse {
    pub id: String,
    pub group: String,
    pub name: String,
}

impl RepoResponse {
    /// The answer for a repository: its id (without partition) and
    /// coordinates.
    pub fn from_repo(repo: &Repo) -> (r: RepoResponse)
        ensures
            r.id@ == repo@.id.id,
            r.group@ == repo@.group,
            r.name@ == repo@.name,
    {
        let name = repo.name();
        RepoResponse {
            id: String::from_str(repo.id().id()),
            group: String::from_str(name.group()),
            name: String::from_str(name.name()),
        }
    }
}

/// The coordinates of a repository to create.
#[derive(Debug)]
pub struct NewRepo {
    pub group: String,
    pub name: String,
}

/// A repository named by its id in a path.
#[derive(Debug)]
pub struct RepoIDPath {
    pub repo_id: String,
}

/// The answer to creating a repository whose coordinates are taken.
pub fn repo_conflict(name: &Name) -> (r: ApiError)
    ensures
        r@ == ApiErrorView::Conflict("a repo with coordinates "@ + name_text(name@) + " already exists"@),
{
    let text = name.to_string();
    ApiError::Conflict(join3("a repo with coordinates ", text.as_str(), " already exists"))
}

/// The answer to deleting a repository that does not exist.
pub fn repo_not_found(repo_id: &str) -> (r: ApiError)
    ensures
        r@ == ApiErrorView::NotFound("repo '"@ + repo_id@ + "' not found"@),
{
    ApiError::NotFound(join3("repo '", repo_id, "' not found"))
}

} // verus!

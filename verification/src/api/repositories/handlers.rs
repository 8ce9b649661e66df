//! The decisions of the repository endpoints.
use vstd::prelude::*;
use super::errors::RepositoryError;
use crate::types::{PaginatedResponse, PaginationParams, paginate};

verus! {

/// Whether a new repository may be stored, given the id of a repository that already has its
/// slug, if any.
pub fn repository_slug_check(existing_id: Option<i32>) -> (r: Result<(), RepositoryError>)
    ensures
        existing_id matches Some(id) ==> r == Err::<(), RepositoryError>(RepositoryError::AlreadyExists(id)),
        existing_id is None ==> r is Ok,
{
    match existing_id {
        Some(id) => Err(RepositoryError::AlreadyExists(id)),
        None => Ok(()),
    }
}

/// A page of repositories: the count reported is the number of repositories on the page.
pub fn repository_page<T>(repositories: Vec<T>, pagination: &PaginationParams) -> (r: PaginatedResponse<T>)
    requires
        i64::MIN <= pagination.offset + pagination.limit <= i64::MAX,
    ensures
        r.total_count == Some(repositories@.len() as i64),
        r.has_next_page == (pagination.offset + pagination.limit < repositories@.len() as i64),
        r.has_previous_page == (pagination.offset > 0),
        r.data@ == repositories@,
{
    let total = repositories.len() as i64;
    paginate(repositories, total, pagination)
}

} // verus!

//! The decisions of the project endpoints.
use vstd::prelude::*;
use super::errors::ProjectError;

verus! {

/// Whether a new project may be stored, given the id of a project that already has its slug,
/// if any.
pub fn slug_check(existing_id: Option<i32>) -> (r: Result<(), ProjectError>)
    ensures
        existing_id matches Some(id) ==> r == Err::<(), ProjectError>(ProjectError::AlreadyExists(id)),
        existing_id is None ==> r is Ok,
{
    match existing_id {
        Some(id) => Err(ProjectError::AlreadyExists(id)),
        None => Ok(()),
    }
}

/// The answer to a new project the database refused.
pub fn project_creation_failure() -> (r: ProjectError)
    ensures
        r matches ProjectError::CannotCreate(m) && m@ == "error creating the project"@,
{
    ProjectError::CannotCreate("error creating the project".to_owned())
}

} // verus!

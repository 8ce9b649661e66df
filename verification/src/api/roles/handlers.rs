//! The decisions of the role endpoints: only admins manage roles, and what a failed operation
//! answers.
use vstd::prelude::*;
use super::errors::RoleError;
use super::models::{KudosRole, RoleView, roles_view};
use super::utils::{has_at_least_one_role, missing_roles_text, user_has_at_least_one_role};
use crate::text::{has_substring, str_contains};

verus! {

/// The database constraint that a user holds a role for a project at most once.
pub const ASSIGNATION_CONSTRAINT: &'static str = "unique_user_project_role";

/// The roles that may manage roles and their assignations.
pub open spec fn role_management_roles() -> Seq<RoleView> {
    seq![RoleView::Admin]
}

/// Whether a user with the given roles may manage roles; a refusal names the missing role.
pub fn authorize_role_management(user_roles: Vec<KudosRole>) -> (r: Result<(), RoleError>)
    ensures
        r is Ok <==> has_at_least_one_role(roles_view(user_roles@), role_management_roles()),
        r is Err ==> (r matches Err(RoleError::MissingRole(m)) && m@ == missing_roles_text(
            roles_view(user_roles@),
            role_management_roles(),
        )),
{
    let mut admin: Vec<KudosRole> = Vec::new();
    admin.push(KudosRole::Admin);
    assert(roles_view(admin@) =~= role_management_roles());
    user_has_at_least_one_role(user_roles, admin)
}

/// Whether an assignation may be stored, given whether its user and its role were found: the
/// user is checked first.
pub fn assignation_checks(user_found: bool, role_found: bool, user_id: i32, role_id: i32) -> (r: Result<
    (),
    RoleError,
>)
    ensures
        !user_found ==> r == Err::<(), RoleError>(RoleError::UserNotFound(user_id)),
        user_found && !role_found ==> r == Err::<(), RoleError>(RoleError::RoleNotFound(role_id)),
        user_found && role_found ==> r is Ok,
{
    if !user_found {
        Err(RoleError::UserNotFound(user_id))
    } else if !role_found {
        Err(RoleError::RoleNotFound(role_id))
    } else {
        Ok(())
    }
}

/// The answer to an assignation the database refused, given the database's error text: a
/// duplicate when the user already holds the role for the project, otherwise a generic failure.
pub fn assignation_failure(error_text: &str) -> (r: RoleError)
    ensures
        has_substring(error_text@, ASSIGNATION_CONSTRAINT@) ==> r == RoleError::AssignationAlreadyExists(),
        !has_substring(error_text@, ASSIGNATION_CONSTRAINT@) ==> (r matches RoleError::CannotCreate(m) && m@
            == "error creating assignation"@),
{
    if str_contains(error_text, ASSIGNATION_CONSTRAINT) {
        RoleError::AssignationAlreadyExists()
    } else {
        RoleError::CannotCreate("error creating assignation".to_owned())
    }
}

/// The answer to a new role the database refused.
pub fn role_creation_failure() -> (r: RoleError)
    ensures
        r matches RoleError::CannotCreate(m) && m@ == "error creating the role"@,
{
    RoleError::CannotCreate("error creating the role".to_owned())
}

/// The answer to a role change the database refused.
pub fn role_update_failure() -> (r: RoleError)
    ensures
        r matches RoleError::CannotUpdate(m) && m@ == "error updating the role"@,
{
    RoleError::CannotUpdate("error updating the role".to_owned())
}

/// The answer to an assignation removal the database refused.
pub fn assignation_deletion_failure() -> (r: RoleError)
    ensures
        r matches RoleError::CannotDelete(m) && m@ == "error deleting the assignation"@,
{
    RoleError::CannotDelete("error deleting the assignation".to_owned())
}

} // verus!

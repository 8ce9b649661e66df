//! Errors of the role endpoints.
use vstd::prelude::*;
use crate::status;
use crate::text::{concat2, int_to_decimal, with_number};

verus! {

/// Why a role request failed.
#[derive(Clone, Debug, PartialEq, Eq)]
pub enum RoleError {
    AlreadyExists(i32),
    NotFound(i32),
    UserNotFound(i32),
    ProjectNotFound(i32),
    RoleNotFound(i32),
    InvalidPayload(String),
    AssignationAlreadyExists(),
    CannotCreate(String),
    CannotUpdate(String),
    CannotDelete(String),
    MissingRole(String),
}

impl RoleError {
    /// The text shown to the client.
    pub open spec fn spec_message(&self) -> Seq<char> {
        match self {
            RoleError::AlreadyExists(id) => "Role #"@ + int_to_decimal(*id as int) + " already exists"@,
            RoleError::AssignationAlreadyExists() => "Assignation already exists"@,
            RoleError::NotFound(id) => "Role #"@ + int_to_decimal(*id as int) + " not found"@,
            RoleError::UserNotFound(id) => "User #"@ + int_to_decimal(*id as int) + " not found"@,
            RoleError::ProjectNotFound(id) => "Project #"@ + int_to_decimal(*id as int) + " not found"@,
            RoleError::RoleNotFound(id) => "Role #"@ + int_to_decimal(*id as int) + " not found"@,
            RoleError::InvalidPayload(e) => "Invalid payload: "@ + e@,
            RoleError::CannotCreate(e) => "Error creating the role: "@ + e@,
            RoleError::CannotUpdate(e) => "Error updating the role: "@ + e@,
            RoleError::CannotDelete(e) => "Error deleting the role: "@ + e@,
            RoleError::MissingRole(e) => "Roles needed for the action: "@ + e@,
        }
    }

    /// The text shown to the client.
    pub fn message(&self) -> (m: String)
        ensures
            m@ == self.spec_message(),
    {
        match self {
            RoleError::AlreadyExists(id) => with_number("Role #", *id as i64, " already exists"),
            RoleError::AssignationAlreadyExists() => "Assignation already exists".to_owned(),
            RoleError::NotFound(id) => with_number("Role #", *id as i64, " not found"),
            RoleError::UserNotFound(id) => with_number("User #", *id as i64, " not found"),
            RoleError::ProjectNotFound(id) => with_number("Project #", *id as i64, " not found"),
            RoleError::RoleNotFound(id) => with_number("Role #", *id as i64, " not found"),
            RoleError::InvalidPayload(e) => concat2("Invalid payload: ", e.as_str()),
            RoleError::CannotCreate(e) => concat2("Error creating the role: ", e.as_str()),
            RoleError::CannotUpdate(e) => concat2("Error updating the role: ", e.as_str()),
            RoleError::CannotDelete(e) => concat2("Error deleting the role: ", e.as_str()),
            RoleError::MissingRole(e) => concat2("Roles needed for the action: ", e.as_str()),
        }
    }

    /// The HTTP status the error is answered with.
    pub open spec fn spec_status_code(&self) -> u16 {
        match self {
            RoleError::AlreadyExists(_) => status::BAD_REQUEST,
            RoleError::NotFound(_) => status::NOT_FOUND,
            RoleError::UserNotFound(_) => status::NOT_FOUND,
            RoleError::ProjectNotFound(_) => status::NOT_FOUND,
            RoleError::RoleNotFound(_) => status::NOT_FOUND,
            RoleError::InvalidPayload(_) => status::NOT_FOUND,
            RoleError::CannotCreate(_) => status::INTERNAL_SERVER_ERROR,
            RoleError::CannotUpdate(_) => status::INTERNAL_SERVER_ERROR,
            RoleError::CannotDelete(_) => status::INTERNAL_SERVER_ERROR,
            RoleError::AssignationAlreadyExists() => status::BAD_REQUEST,
            RoleError::MissingRole(_) => status::FORBIDDEN,
        }
    }

    /// The HTTP status the error is answered with.
    pub fn status_code(&self) -> (c: u16)
        ensures
            c == self.spec_status_code(),
    {
        match self {
            RoleError::AlreadyExists(_) => status::BAD_REQUEST,
            RoleError::NotFound(_) => status::NOT_FOUND,
            RoleError::UserNotFound(_) => status::NOT_FOUND,
            RoleError::ProjectNotFound(_) => status::NOT_FOUND,
            RoleError::RoleNotFound(_) => status::NOT_FOUND,
            RoleError::InvalidPayload(_) => status::NOT_FOUND,
            RoleError::CannotCreate(_) => status::INTERNAL_SERVER_ERROR,
            RoleError::CannotUpdate(_) => status::INTERNAL_SERVER_ERROR,
            RoleError::CannotDelete(_) => status::INTERNAL_SERVER_ERROR,
            RoleError::AssignationAlreadyExists() => status::BAD_REQUEST,
            RoleError::MissingRole(_) => status::FORBIDDEN,
        }
    }
}

} // verus!

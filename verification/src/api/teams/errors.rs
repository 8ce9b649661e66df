//! Errors of the team endpoints.
use vstd::prelude::*;
use crate::status;
use crate::text::{concat2, int_to_decimal, with_number};

verus! {

/// Errors of the team endpoints: why a request failed.
#[derive(Clone, Debug, PartialEq, Eq)]
pub enum TeamError {
    NotFound(i32),
    MemberNotFound(i32),
    InvalidPayload(String),
    CannotCreate(String),
    CannotUpdate(String),
    CannotDelete(String),
}

impl TeamError {
    /// The text shown to the client.
    pub open spec fn spec_message(&self) -> Seq<char> {
        match self {
            TeamError::NotFound(x) => "Team #"@ + int_to_decimal(*x as int) + " not found"@,
            TeamError::MemberNotFound(x) => "Team member #"@ + int_to_decimal(*x as int) + " not found"@,
            TeamError::InvalidPayload(x) => "Invalid payload: "@ + x@,
            TeamError::CannotCreate(x) => "Error creating the resource: "@ + x@,
            TeamError::CannotUpdate(x) => "Error updating the resource: "@ + x@,
            TeamError::CannotDelete(x) => "Error deleting the resource: "@ + x@,
        }
    }

    /// The text shown to the client.
    pub fn message(&self) -> (m: String)
        ensures
            m@ == self.spec_message(),
    {
        match self {
            TeamError::NotFound(x) => with_number("Team #", *x as i64, " not found"),
            TeamError::MemberNotFound(x) => with_number("Team member #", *x as i64, " not found"),
            TeamError::InvalidPayload(x) => concat2("Invalid payload: ", x.as_str()),
            TeamError::CannotCreate(x) => concat2("Error creating the resource: ", x.as_str()),
            TeamError::CannotUpdate(x) => concat2("Error updating the resource: ", x.as_str()),
            TeamError::CannotDelete(x) => concat2("Error deleting the resource: ", x.as_str()),
        }
    }

    /// The HTTP status the error is answered with.
    pub open spec fn spec_status_code(&self) -> u16 {
        match self {
            TeamError::NotFound(_) => status::NOT_FOUND,
            TeamError::MemberNotFound(_) => status::NOT_FOUND,
            TeamError::InvalidPayload(_) => status::UNPROCESSABLE_ENTITY,
            TeamError::CannotCreate(_) => status::INTERNAL_SERVER_ERROR,
            TeamError::CannotUpdate(_) => status::INTERNAL_SERVER_ERROR,
            TeamError::CannotDelete(_) => status::INTERNAL_SERVER_ERROR,
        }
    }

    /// The HTTP status the error is answered with.
    pub fn status_code(&self) -> (c: u16)
        ensures
            c == self.spec_status_code(),
    {
        match self {
            TeamError::NotFound(_) => status::NOT_FOUND,
            TeamError::MemberNotFound(_) => status::NOT_FOUND,
            TeamError::InvalidPayload(_) => status::UNPROCESSABLE_ENTITY,
            TeamError::CannotCreate(_) => status::INTERNAL_SERVER_ERROR,
            TeamError::CannotUpdate(_) => status::INTERNAL_SERVER_ERROR,
            TeamError::CannotDelete(_) => status::INTERNAL_SERVER_ERROR,
        }
    }
}

} // verus!

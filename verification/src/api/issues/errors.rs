//! Errors of the issue endpoints.
use vstd::prelude::*;
use crate::status;
use crate::text::{concat2, int_to_decimal, with_number};

verus! {

/// Errors of the issue endpoints: why a request failed.
#[derive(Clone, Debug, PartialEq, Eq)]
pub enum IssueError {
    AlreadyExists(i32),
    NotFound(i32),
    RepositoryNotFound(i32),
    InvalidPayload(String),
    CannotCreate(String),
    CannotUpdate(String),
}

impl IssueError {
    /// The text shown to the client.
    pub open spec fn spec_message(&self) -> Seq<char> {
        match self {
            IssueError::AlreadyExists(x) => "Issue #"@ + int_to_decimal(*x as int) + " already exists"@,
            IssueError::NotFound(x) => "Issue #"@ + int_to_decimal(*x as int) + " not found"@,
            IssueError::RepositoryNotFound(x) => "Repository #"@ + int_to_decimal(*x as int) + " not found"@,
            IssueError::InvalidPayload(x) => "Invalid payload: "@ + x@,
            IssueError::CannotCreate(x) => "error creating the issue: "@ + x@,
            IssueError::CannotUpdate(x) => "error updating the issue: "@ + x@,
        }
    }

    /// The text shown to the client.
    pub fn message(&self) -> (m: String)
        ensures
            m@ == self.spec_message(),
    {
        match self {
            IssueError::AlreadyExists(x) => with_number("Issue #", *x as i64, " already exists"),
            IssueError::NotFound(x) => with_number("Issue #", *x as i64, " not found"),
            IssueError::RepositoryNotFound(x) => with_number("Repository #", *x as i64, " not found"),
            IssueError::InvalidPayload(x) => concat2("Invalid payload: ", x.as_str()),
            IssueError::CannotCreate(x) => concat2("error creating the issue: ", x.as_str()),
            IssueError::CannotUpdate(x) => concat2("error updating the issue: ", x.as_str()),
        }
    }

    /// The HTTP status the error is answered with.
    pub open spec fn spec_status_code(&self) -> u16 {
        match self {
            IssueError::AlreadyExists(_) => status::BAD_REQUEST,
            IssueError::NotFound(_) => status::NOT_FOUND,
            IssueError::RepositoryNotFound(_) => status::UNPROCESSABLE_ENTITY,
            IssueError::InvalidPayload(_) => status::UNPROCESSABLE_ENTITY,
            IssueError::CannotCreate(_) => status::INTERNAL_SERVER_ERROR,
            IssueError::CannotUpdate(_) => status::INTERNAL_SERVER_ERROR,
        }
    }

    /// The HTTP status the error is answered with.
    pub fn status_code(&self) -> (c: u16)
        ensures
            c == self.spec_status_code(),
    {
        match self {
            IssueError::AlreadyExists(_) => status::BAD_REQUEST,
            IssueError::NotFound(_) => status::NOT_FOUND,
            IssueError::RepositoryNotFound(_) => status::UNPROCESSABLE_ENTITY,
            IssueError::InvalidPayload(_) => status::UNPROCESSABLE_ENTITY,
            IssueError::CannotCreate(_) => status::INTERNAL_SERVER_ERROR,
            IssueError::CannotUpdate(_) => status::INTERNAL_SERVER_ERROR,
        }
    }
}

} // verus!

//! Errors of the task endpoints.
use vstd::prelude::*;
use crate::status;
use crate::text::{concat2, int_to_decimal, with_number};

verus! {

/// Errors of the task endpoints: why a request failed.
#[derive(Clone, Debug, PartialEq, Eq)]
pub enum TaskError {
    AlreadyExists(i32),
    NotFound(i32),
    UserNotFound(i32),
    UserCannotVote(),
    ProjectNotFound(i32),
    RepositoryNotFound(i32),
    InvalidTask(String),
    InvalidPayload(String),
    UserAlreadyVoted(),
    CannotCreate(String),
    CannotUpdate(String),
    CannotDelete(String),
}

impl TaskError {
    /// The text shown to the client.
    pub open spec fn spec_message(&self) -> Seq<char> {
        match self {
            TaskError::AlreadyExists(x) => "Task #"@ + int_to_decimal(*x as int) + " already exists"@,
            TaskError::NotFound(x) => "Task #"@ + int_to_decimal(*x as int) + " not found"@,
            TaskError::UserNotFound(x) => "User #"@ + int_to_decimal(*x as int) + " not found"@,
            TaskError::UserCannotVote() => "User cannot vote"@,
            TaskError::ProjectNotFound(x) => "Project #"@ + int_to_decimal(*x as int) + " not found"@,
            TaskError::RepositoryNotFound(x) => "Repository #"@ + int_to_decimal(*x as int) + " not found"@,
            TaskError::InvalidTask(x) => "Invalid task: "@ + x@,
            TaskError::InvalidPayload(x) => "Invalid payload: "@ + x@,
            TaskError::UserAlreadyVoted() => "User already voted"@,
            TaskError::CannotCreate(x) => "Error creating the task: "@ + x@,
            TaskError::CannotUpdate(x) => "Error updating the task: "@ + x@,
            TaskError::CannotDelete(x) => "Error deleting the task: "@ + x@,
        }
    }

    /// The text shown to the client.
    pub fn message(&self) -> (m: String)
        ensures
            m@ == self.spec_message(),
    {
        match self {
            TaskError::AlreadyExists(x) => with_number("Task #", *x as i64, " already exists"),
            TaskError::NotFound(x) => with_number("Task #", *x as i64, " not found"),
            TaskError::UserNotFound(x) => with_number("User #", *x as i64, " not found"),
            TaskError::UserCannotVote() => "User cannot vote".to_owned(),
            TaskError::ProjectNotFound(x) => with_number("Project #", *x as i64, " not found"),
            TaskError::RepositoryNotFound(x) => with_number("Repository #", *x as i64, " not found"),
            TaskError::InvalidTask(x) => concat2("Invalid task: ", x.as_str()),
            TaskError::InvalidPayload(x) => concat2("Invalid payload: ", x.as_str()),
            TaskError::UserAlreadyVoted() => "User already voted".to_owned(),
            TaskError::CannotCreate(x) => concat2("Error creating the task: ", x.as_str()),
            TaskError::CannotUpdate(x) => concat2("Error updating the task: ", x.as_str()),
            TaskError::CannotDelete(x) => concat2("Error deleting the task: ", x.as_str()),
        }
    }

    /// The HTTP status the error is answered with.
    pub open spec fn spec_status_code(&self) -> u16 {
        match self {
            TaskError::AlreadyExists(_) => status::BAD_REQUEST,
            TaskError::NotFound(_) => status::NOT_FOUND,
            TaskError::UserNotFound(_) => status::NOT_FOUND,
            TaskError::UserCannotVote() => status::FORBIDDEN,
            TaskError::ProjectNotFound(_) => status::NOT_FOUND,
            TaskError::RepositoryNotFound(_) => status::NOT_FOUND,
            TaskError::InvalidTask(_) => status::BAD_REQUEST,
            TaskError::InvalidPayload(_) => status::NOT_FOUND,
            TaskError::UserAlreadyVoted() => status::BAD_REQUEST,
            TaskError::CannotCreate(_) => status::INTERNAL_SERVER_ERROR,
            TaskError::CannotUpdate(_) => status::INTERNAL_SERVER_ERROR,
            TaskError::CannotDelete(_) => status::INTERNAL_SERVER_ERROR,
        }
    }

    /// The HTTP status the error is answered with.
    pub fn status_code(&self) -> (c: u16)
        ensures
            c == self.spec_status_code(),
    {
        match self {
            TaskError::AlreadyExists(_) => status::BAD_REQUEST,
            TaskError::NotFound(_) => status::NOT_FOUND,
            TaskError::UserNotFound(_) => status::NOT_FOUND,
            TaskError::UserCannotVote() => status::FORBIDDEN,
            TaskError::ProjectNotFound(_) => status::NOT_FOUND,
            TaskError::RepositoryNotFound(_) => status::NOT_FOUND,
            TaskError::InvalidTask(_) => status::BAD_REQUEST,
            TaskError::InvalidPayload(_) => status::NOT_FOUND,
            TaskError::UserAlreadyVoted() => status::BAD_REQUEST,
            TaskError::CannotCreate(_) => status::INTERNAL_SERVER_ERROR,
            TaskError::CannotUpdate(_) => status::INTERNAL_SERVER_ERROR,
            TaskError::CannotDelete(_) => status::INTERNAL_SERVER_ERROR,
        }
    }
}

} // verus!

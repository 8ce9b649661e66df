//! Errors of the comment endpoints.
use vstd::prelude::*;
use crate::status;
use crate::text::{concat2, int_to_decimal, with_number};

verus! {

/// Errors of the comment endpoints: why a request failed.
#[derive(Clone, Debug, PartialEq, Eq)]
pub enum CommentError {
    NotFound(i32),
    TaskNotFound(i32),
    UserNotFound(i32),
    InvalidPayload(String),
    CannotCreate(String),
    CannotDelete(String),
    UnauthorizedAction,
}

impl CommentError {
    /// The text shown to the client.
    pub open spec fn spec_message(&self) -> Seq<char> {
        match self {
            CommentError::NotFound(x) => "Comment #"@ + int_to_decimal(*x as int) + " not found"@,
            CommentError::TaskNotFound(x) => "Task #"@ + int_to_decimal(*x as int) + " not found, cannot create comment"@,
            CommentError::UserNotFound(x) => "User #"@ + int_to_decimal(*x as int) + " not found"@,
            CommentError::InvalidPayload(x) => "Invalid payload: "@ + x@,
            CommentError::CannotCreate(x) => "Error creating the comment: "@ + x@,
            CommentError::CannotDelete(x) => "Error deleting the comment: "@ + x@,
            CommentError::UnauthorizedAction => "User is not authorized to perform this action"@,
        }
    }

    /// The text shown to the client.
    pub fn message(&self) -> (m: String)
        ensures
            m@ == self.spec_message(),
    {
        match self {
            CommentError::NotFound(x) => with_number("Comment #", *x as i64, " not found"),
            CommentError::TaskNotFound(x) => with_number("Task #", *x as i64, " not found, cannot create comment"),
            CommentError::UserNotFound(x) => with_number("User #", *x as i64, " not found"),
            CommentError::InvalidPayload(x) => concat2("Invalid payload: ", x.as_str()),
            CommentError::CannotCreate(x) => concat2("Error creating the comment: ", x.as_str()),
            CommentError::CannotDelete(x) => concat2("Error deleting the comment: ", x.as_str()),
            CommentError::UnauthorizedAction => "User is not authorized to perform this action".to_owned(),
        }
    }

    /// The HTTP status the error is answered with.
    pub open spec fn spec_status_code(&self) -> u16 {
        match self {
            CommentError::NotFound(_) => status::NOT_FOUND,
            CommentError::TaskNotFound(_) => status::NOT_FOUND,
            CommentError::UserNotFound(_) => status::NOT_FOUND,
            CommentError::InvalidPayload(_) => status::UNPROCESSABLE_ENTITY,
            CommentError::CannotCreate(_) => status::INTERNAL_SERVER_ERROR,
            CommentError::CannotDelete(_) => status::INTERNAL_SERVER_ERROR,
            CommentError::UnauthorizedAction => status::FORBIDDEN,
        }
    }

    /// The HTTP status the error is answered with.
    pub fn status_code(&self) -> (c: u16)
        ensures
            c == self.spec_status_code(),
    {
        match self {
            CommentError::NotFound(_) => status::NOT_FOUND,
            CommentError::TaskNotFound(_) => status::NOT_FOUND,
            CommentError::UserNotFound(_) => status::NOT_FOUND,
            CommentError::InvalidPayload(_) => status::UNPROCESSABLE_ENTITY,
            CommentError::CannotCreate(_) => status::INTERNAL_SERVER_ERROR,
            CommentError::CannotDelete(_) => status::INTERNAL_SERVER_ERROR,
            CommentError::UnauthorizedAction => status::FORBIDDEN,
        }
    }
}

} // verus!

//! Errors of reading a GitHub issue reference.
use vstd::prelude::*;
use crate::status;
use crate::text::{int_to_decimal, with_number};

verus! {

/// Errors of reading a GitHub issue reference: why a request failed.
#[derive(Clone, Debug, PartialEq, Eq)]
pub enum IssueError {
    IssueExists(i32),
    IssueNotFound(i32),
    IssueInvalidURL,
}

impl IssueError {
    /// The text shown to the client.
    pub open spec fn spec_message(&self) -> Seq<char> {
        match self {
            IssueError::IssueExists(x) => "Issue #"@ + int_to_decimal(*x as int) + " already exists"@,
            IssueError::IssueNotFound(x) => "Issue #"@ + int_to_decimal(*x as int) + " not found"@,
            IssueError::IssueInvalidURL => "Issue url is invalid"@,
        }
    }

    /// The text shown to the client.
    pub fn message(&self) -> (m: String)
        ensures
            m@ == self.spec_message(),
    {
        match self {
            IssueError::IssueExists(x) => with_number("Issue #", *x as i64, " already exists"),
            IssueError::IssueNotFound(x) => with_number("Issue #", *x as i64, " not found"),
            IssueError::IssueInvalidURL => "Issue url is invalid".to_owned(),
        }
    }

    /// The HTTP status the error is answered with.
    pub open spec fn spec_status_code(&self) -> u16 {
        match self {
            IssueError::IssueExists(_) => status::BAD_REQUEST,
            IssueError::IssueNotFound(_) => status::NOT_FOUND,
            IssueError::IssueInvalidURL => status::BAD_REQUEST,
        }
    }

    /// The HTTP status the error is answered with.
    pub fn status_code(&self) -> (c: u16)
        ensures
            c == self.spec_status_code(),
    {
        match self {
            IssueError::IssueExists(_) => status::BAD_REQUEST,
            IssueError::IssueNotFound(_) => status::NOT_FOUND,
            IssueError::IssueInvalidURL => status::BAD_REQUEST,
        }
    }
}

} // verus!

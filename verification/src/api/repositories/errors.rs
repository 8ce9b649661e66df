//! Errors of the repository endpoints.
use vstd::prelude::*;
use crate::status;
use crate::text::{concat3, int_to_decimal, with_number};

verus! {

/// Errors of the repository endpoints: why a request failed.
#[derive(Clone, Debug, PartialEq, Eq)]
pub enum RepositoryError {
    AlreadyExists(i32),
    NotFound(i32),
    NotFoundByName(String),
}

impl RepositoryError {
    /// The text shown to the client.
    pub open spec fn spec_message(&self) -> Seq<char> {
        match self {
            RepositoryError::AlreadyExists(x) => "Repository #"@ + int_to_decimal(*x as int) + " already exists"@,
            RepositoryError::NotFound(x) => "Repository #"@ + int_to_decimal(*x as int) + " not found"@,
            RepositoryError::NotFoundByName(x) => "Repository "@ + x@ + " not found"@,
        }
    }

    /// The text shown to the client.
    pub fn message(&self) -> (m: String)
        ensures
            m@ == self.spec_message(),
    {
        match self {
            RepositoryError::AlreadyExists(x) => with_number("Repository #", *x as i64, " already exists"),
            RepositoryError::NotFound(x) => with_number("Repository #", *x as i64, " not found"),
            RepositoryError::NotFoundByName(x) => concat3("Repository ", x.as_str(), " not found"),
        }
    }

    /// The HTTP status the error is answered with.
    pub open spec fn spec_status_code(&self) -> u16 {
        match self {
            RepositoryError::AlreadyExists(_) => status::BAD_REQUEST,
            RepositoryError::NotFound(_) => status::NOT_FOUND,
            RepositoryError::NotFoundByName(_) => status::NOT_FOUND,
        }
    }

    /// The HTTP status the error is answered with.
    pub fn status_code(&self) -> (c: u16)
        ensures
            c == self.spec_status_code(),
    {
        match self {
            RepositoryError::AlreadyExists(_) => status::BAD_REQUEST,
            RepositoryError::NotFound(_) => status::NOT_FOUND,
            RepositoryError::NotFoundByName(_) => status::NOT_FOUND,
        }
    }
}

} // verus!

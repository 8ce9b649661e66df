//! Errors of the project endpoints.
use vstd::prelude::*;
use crate::status;
use crate::text::{concat2, concat3, int_to_decimal, with_number};

verus! {

/// Errors of the project endpoints: why a request failed.
#[derive(Clone, Debug, PartialEq, Eq)]
pub enum ProjectError {
    AlreadyExists(i32),
    NotFound(i32),
    NotFoundBySlug(String),
    InvalidPayload(String),
    CannotCreate(String),
}

impl ProjectError {
    /// The text shown to the client.
    pub open spec fn spec_message(&self) -> Seq<char> {
        match self {
            ProjectError::AlreadyExists(x) => "Project #"@ + int_to_decimal(*x as int) + " already exists"@,
            ProjectError::NotFound(x) => "Project #"@ + int_to_decimal(*x as int) + " not found"@,
            ProjectError::NotFoundBySlug(x) => "Project "@ + x@ + " not found"@,
            ProjectError::InvalidPayload(x) => "Invalid payload: "@ + x@,
            ProjectError::CannotCreate(x) => "Cannot create the project: "@ + x@,
        }
    }

    /// The text shown to the client.
    pub fn message(&self) -> (m: String)
        ensures
            m@ == self.spec_message(),
    {
        match self {
            ProjectError::AlreadyExists(x) => with_number("Project #", *x as i64, " already exists"),
            ProjectError::NotFound(x) => with_number("Project #", *x as i64, " not found"),
            ProjectError::NotFoundBySlug(x) => concat3("Project ", x.as_str(), " not found"),
            ProjectError::InvalidPayload(x) => concat2("Invalid payload: ", x.as_str()),
            ProjectError::CannotCreate(x) => concat2("Cannot create the project: ", x.as_str()),
        }
    }

    /// The HTTP status the error is answered with.
    pub open spec fn spec_status_code(&self) -> u16 {
        match self {
            ProjectError::AlreadyExists(_) => status::BAD_REQUEST,
            ProjectError::NotFound(_) => status::NOT_FOUND,
            ProjectError::NotFoundBySlug(_) => status::NOT_FOUND,
            ProjectError::InvalidPayload(_) => status::UNPROCESSABLE_ENTITY,
            ProjectError::CannotCreate(_) => status::INTERNAL_SERVER_ERROR,
        }
    }

    /// The HTTP status the error is answered with.
    pub fn status_code(&self) -> (c: u16)
        ensures
            c == self.spec_status_code(),
    {
        match self {
            ProjectError::AlreadyExists(_) => status::BAD_REQUEST,
            ProjectError::NotFound(_) => status::NOT_FOUND,
            ProjectError::NotFoundBySlug(_) => status::NOT_FOUND,
            ProjectError::InvalidPayload(_) => status::UNPROCESSABLE_ENTITY,
            ProjectError::CannotCreate(_) => status::INTERNAL_SERVER_ERROR,
        }
    }
}

} // verus!

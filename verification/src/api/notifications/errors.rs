//! Errors of the notification endpoints.
use vstd::prelude::*;
use crate::status;
use crate::text::{concat2, int_to_decimal, with_number};

verus! {

/// Errors of the notification endpoints: why a request failed.
#[derive(Clone, Debug, PartialEq, Eq)]
pub enum NotificationError {
    AlreadyExists(i32),
    NotFound(i32),
    NotFoundByGithubUser(i64),
    CannotCreate(String),
    InvalidPayload(String),
    CannotDelete(String),
}

impl NotificationError {
    /// The text shown to the client.
    pub open spec fn spec_message(&self) -> Seq<char> {
        match self {
            NotificationError::AlreadyExists(x) => "Notification #"@ + int_to_decimal(*x as int) + " already exists"@,
            NotificationError::NotFound(x) => "Notification #"@ + int_to_decimal(*x as int) + " not found"@,
            NotificationError::NotFoundByGithubUser(x) => "No Notifications found for github user #"@ + int_to_decimal(*x as int) + ""@,
            NotificationError::CannotCreate(x) => "Notification cannot be created: "@ + x@,
            NotificationError::InvalidPayload(x) => "Cannot create the Notification: "@ + x@,
            NotificationError::CannotDelete(x) => "Notification cannot be deleted: "@ + x@,
        }
    }

    /// The text shown to the client.
    pub fn message(&self) -> (m: String)
        ensures
            m@ == self.spec_message(),
    {
        match self {
            NotificationError::AlreadyExists(x) => with_number("Notification #", *x as i64, " already exists"),
            NotificationError::NotFound(x) => with_number("Notification #", *x as i64, " not found"),
            NotificationError::NotFoundByGithubUser(x) => with_number("No Notifications found for github user #", *x, ""),
            NotificationError::CannotCreate(x) => concat2("Notification cannot be created: ", x.as_str()),
            NotificationError::InvalidPayload(x) => concat2("Cannot create the Notification: ", x.as_str()),
            NotificationError::CannotDelete(x) => concat2("Notification cannot be deleted: ", x.as_str()),
        }
    }

    /// The HTTP status the error is answered with.
    pub open spec fn spec_status_code(&self) -> u16 {
        match self {
            NotificationError::AlreadyExists(_) => status::BAD_REQUEST,
            NotificationError::NotFound(_) => status::NOT_FOUND,
            NotificationError::NotFoundByGithubUser(_) => status::NOT_FOUND,
            NotificationError::CannotCreate(_) => status::UNPROCESSABLE_ENTITY,
            NotificationError::InvalidPayload(_) => status::UNPROCESSABLE_ENTITY,
            NotificationError::CannotDelete(_) => status::UNPROCESSABLE_ENTITY,
        }
    }

    /// The HTTP status the error is answered with.
    pub fn status_code(&self) -> (c: u16)
        ensures
            c == self.spec_status_code(),
    {
        match self {
            NotificationError::AlreadyExists(_) => status::BAD_REQUEST,
            NotificationError::NotFound(_) => status::NOT_FOUND,
            NotificationError::NotFoundByGithubUser(_) => status::NOT_FOUND,
            NotificationError::CannotCreate(_) => status::UNPROCESSABLE_ENTITY,
            NotificationError::InvalidPayload(_) => status::UNPROCESSABLE_ENTITY,
            NotificationError::CannotDelete(_) => status::UNPROCESSABLE_ENTITY,
        }
    }
}

} // verus!

//! The kinds a task may have.
use vstd::prelude::*;
use super::errors::TaskError;
use crate::text::str_eq;

verus! {

/// The kind of a task that does development work.
pub const DEV: &'static str = "dev";
/// The kind of a task that does other work.
pub const NON_DEV: &'static str = "non-dev";
/// The kind of a task that records a wish.
pub const WISH: &'static str = "wish";

/// `type_` is one of the kinds a task may have: `dev`, `non-dev` or `wish`.
pub open spec fn is_task_type(type_: Seq<char>) -> bool {
    type_ == DEV@ || type_ == NON_DEV@ || type_ == WISH@
}

/// The explanation given for a task kind that is refused.
pub open spec fn invalid_type_text() -> Seq<char> {
    "invalid typeL use dev, non-dev or wish"@
}

/// Accepts the kinds `dev`, `non-dev` and `wish`; refuses any other with `InvalidPayload`.
pub fn validate_task_type(type_: &str) -> (r: Result<(), TaskError>)
    ensures
        r is Ok <==> is_task_type(type_@),
        r is Err ==> (r matches Err(TaskError::InvalidPayload(m)) && m@ == invalid_type_text()),
{
    if str_eq(type_, DEV) || str_eq(type_, NON_DEV) || str_eq(type_, WISH) {
        Ok(())
    } else {
        Err(TaskError::InvalidPayload("invalid typeL use dev, non-dev or wish".to_owned()))
    }
}

} // verus!

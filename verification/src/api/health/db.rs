//! The health check of the database.
use vstd::prelude::*;

verus! {

/// A database that can tell whether it answers queries. Implemented by the service's database
/// access; nothing is assumed of what it answers.
pub trait DBHealth: Sized + Clone {
    /// The error a failed check reports.
    type Error;

    /// Runs a trivial query; `Ok` when the database answered it.
    fn health(&self) -> Result<(), Self::Error>;
}

/// The HTTP status of the health endpoint, given the outcome of the check: 200 when the
/// database answered, the check's error otherwise.
pub fn health_status<E>(check: Result<(), E>) -> (r: Result<u16, E>)
    ensures
        check is Ok ==> r == Ok::<u16, E>(crate::status::OK),
        check matches Err(e) ==> r == Err::<u16, E>(e),
{
    match check {
        Ok(()) => Ok(crate::status::OK),
        Err(e) => Err(e),
    }
}

} // verus!

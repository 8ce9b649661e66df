//! Paging of list answers.
use vstd::prelude::*;

verus! {

/// Which slice of a list the client asks for.
#[derive(Clone, Debug, PartialEq, Eq)]
pub struct PaginationParams {
    pub limit: i64,
    pub offset: i64,
}

/// A slice of a list, with what the client needs to page through the rest.
#[derive(Clone, Debug, PartialEq, Eq)]
pub struct PaginatedResponse<T> {
    pub total_count: Option<i64>,
    pub has_next_page: bool,
    pub has_previous_page: bool,
    pub data: Vec<T>,
}

/// Wraps one page of a list: there is a next page when the page ends before the total count,
/// and a previous one when the page does not start at the beginning.
pub fn paginate<T>(data: Vec<T>, total_count: i64, pagination: &PaginationParams) -> (r: PaginatedResponse<T>)
    requires
        i64::MIN <= pagination.offset + pagination.limit <= i64::MAX,
    ensures
        r.total_count == Some(total_count),
        r.has_next_page == (pagination.offset + pagination.limit < total_count),
        r.has_previous_page == (pagination.offset > 0),
        r.data@ == data@,
{
    let has_next_page = pagination.offset + pagination.limit < total_count;
    let has_previous_page = pagination.offset > 0;
    PaginatedResponse { total_count: Some(total_count), has_next_page, has_previous_page, data }
}

} // verus!

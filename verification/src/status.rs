//! HTTP status codes that the API answers with.
use vstd::prelude::*;

verus! {

/// 200 OK.
pub const OK: u16 = 200;
/// 201 Created.
pub const CREATED: u16 = 201;
/// 204 No Content.
pub const NO_CONTENT: u16 = 204;
/// 400 Bad Request.
pub const BAD_REQUEST: u16 = 400;
/// 403 Forbidden.
pub const FORBIDDEN: u16 = 403;
/// 404 Not Found.
pub const NOT_FOUND: u16 = 404;
/// 422 Unprocessable Entity.
pub const UNPROCESSABLE_ENTITY: u16 = 422;
/// 500 Internal Server Error.
pub const INTERNAL_SERVER_ERROR: u16 = 500;

} // verus!

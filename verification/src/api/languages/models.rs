//! Programming languages of repositories.
use vstd::prelude::*;

verus! {

/// A language as stored. Times are microseconds since the Unix epoch (UTC).
#[derive(Clone, Debug, PartialEq, Eq)]
pub struct Language {
    pub id: i32,
    pub slug: String,
    pub created_at: i64,
    pub updated_at: Option<i64>,
}

/// The payload that registers a language.
#[derive(Clone, Debug, PartialEq, Eq)]
pub struct NewLanguage {
    pub slug: String,
}

} // verus!

//! A reference to an issue on GitHub.
use vstd::prelude::*;

verus! {

/// The organization, repository and number that a GitHub issue URL names.
#[derive(Clone, Debug, PartialEq, Eq)]
pub struct IssueInfo {
    pub organization: String,
    pub repository: String,
    pub issue_id: u32,
}

} // verus!

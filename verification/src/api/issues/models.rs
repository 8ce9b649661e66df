//! Issues of the repositories, and the leaderboard of the people who close them.
//! Times are microseconds since the Unix epoch (UTC).
use vstd::prelude::*;
use crate::api::projects::models::Project;
use crate::api::repositories::models::{Repository, RepositoryResponse, repository_response, repository_response_of};

verus! {

/// An issue as stored.
#[derive(Clone, Debug, PartialEq, Eq)]
pub struct Issue {
    pub id: i32,
    pub number: i32,
    pub title: String,
    pub labels: Option<Vec<Option<String>>>,
    pub open: bool,
    pub certified: Option<bool>,
    pub assignee_id: Option<i32>,
    pub repository_id: i32,
    pub issue_created_at: i64,
    pub issue_closed_at: Option<i64>,
    pub created_at: i64,
    pub updated_at: Option<i64>,
    pub description: Option<String>,
    pub estimation: i32,
}

/// The payload that creates an issue.
#[derive(Clone, Debug, PartialEq, Eq)]
pub struct NewIssue {
    pub number: i32,
    pub title: String,
    pub labels: Option<Vec<String>>,
    pub open: bool,
    pub certified: Option<bool>,
    pub repository_id: i32,
    pub assignee_id: Option<i32>,
    pub issue_created_at: i64,
    pub description: Option<String>,
    pub estimation: Option<i32>,
}

/// The payload that changes an issue: each field that is present replaces the stored one.
#[derive(Clone, Debug, PartialEq, Eq)]
pub struct UpdateIssue {
    pub title: Option<String>,
    pub labels: Option<Vec<String>>,
    pub open: Option<bool>,
    pub certified: Option<bool>,
    pub assignee_id: Option<i32>,
    pub issue_closed_at: Option<i64>,
    pub description: Option<String>,
    pub estimation: Option<i32>,
}

impl UpdateIssue {
    /// At least one field of the payload is present.
    pub open spec fn spec_has_any_field(&self) -> bool {
        ||| self.title is Some
        ||| self.labels is Some
        ||| self.open is Some
        ||| self.certified is Some
        ||| self.assignee_id is Some
        ||| self.issue_closed_at is Some
        ||| self.description is Some
        ||| self.estimation is Some
    }

    /// Whether the payload changes anything at all.
    pub fn has_any_field(&self) -> (r: bool)
        ensures
            r == self.spec_has_any_field(),
    {
        self.title.is_some() || self.labels.is_some() || self.open.is_some()
            || self.certified.is_some() || self.assignee_id.is_some()
            || self.issue_closed_at.is_some() || self.description.is_some()
            || self.estimation.is_some()
    }
}

impl Default for UpdateIssue {
    /// The payload that changes nothing: every field absent.
    fn default() -> (r: UpdateIssue)
        ensures
            !r.spec_has_any_field(),
    {
        UpdateIssue {
            title: None,
            labels: None,
            open: None,
            certified: None,
            assignee_id: None,
            issue_closed_at: None,
            description: None,
            estimation: None,
        }
    }
}

/// The filters of an issue listing; absent filters select everything.
#[derive(Clone, Debug, PartialEq, Eq)]
pub struct QueryParams {
    pub slugs: Option<String>,
    pub certified: Option<bool>,
    pub purposes: Option<String>,
    pub stack_levels: Option<String>,
    pub technologies: Option<String>,
    pub labels: Option<String>,
    pub language_slugs: Option<String>,
    pub repository_id: Option<i32>,
    pub assignee_id: Option<i32>,
    pub open: Option<bool>,
    pub has_assignee: Option<bool>,
    pub issue_closed_at_min: Option<i64>,
    pub issue_closed_at_max: Option<i64>,
    pub rewards: Option<bool>,
    pub certified_or_labels: Option<bool>,
    pub types: Option<String>,
}

/// The user to assign to an issue.
#[derive(Clone, Debug, PartialEq, Eq)]
pub struct IssueAssignee {
    pub username: String,
}

/// An issue as the API returns it, with its assignee and its repository.
#[derive(Clone, Debug, PartialEq, Eq)]
pub struct IssueResponse {
    pub id: i32,
    pub issue_id: i32,
    pub title: String,
    pub labels: Option<Vec<Option<String>>>,
    pub open: bool,
    pub certified: bool,
    pub assignee_id: Option<i32>,
    pub assignee_username: Option<String>,
    pub assignee_avatar: Option<String>,
    pub repository: RepositoryResponse,
    pub issue_created_at: i64,
    pub issue_closed_at: Option<i64>,
    pub created_at: i64,
    pub updated_at: Option<i64>,
    pub description: Option<String>,
    pub estimation: i32,
}

/// One line of the leaderboard: a user and the number of closed issues assigned to them.
#[derive(Clone, Debug, PartialEq, Eq)]
pub struct LeaderboardEntry {
    pub username: String,
    pub issues: u64,
    pub score: u64,
}

/// The filters of a leaderboard; absent filters select everything.
#[derive(Clone, Debug, PartialEq, Eq)]
pub struct LeaderboardQueryParams {
    pub slugs: Option<String>,
    pub certified: Option<bool>,
    pub purposes: Option<String>,
    pub stack_levels: Option<String>,
    pub technologies: Option<String>,
    pub labels: Option<String>,
    pub language_slug: Option<String>,
    pub repository_id: Option<i32>,
    pub start_date: Option<i64>,
    pub close_date: Option<i64>,
    pub rewards: Option<bool>,
    pub types: Option<String>,
}

/// A stored issue joined with its repository, its project and its assignee's name and avatar.
pub type IssueRow = (Issue, Repository, Project, Option<String>, Option<String>);

/// The issue a row stands for: its number as `issue_id`, an absent certification as `false`,
/// and every other stored field unchanged.
pub open spec fn issue_response_of_row(row: IssueRow) -> IssueResponse {
    let (issue, repo, project, username, avatar) = row;
    IssueResponse {
        id: issue.id,
        issue_id: issue.number,
        title: issue.title,
        labels: issue.labels,
        open: issue.open,
        certified: match issue.certified {
            Some(c) => c,
            None => false,
        },
        assignee_id: issue.assignee_id,
        assignee_username: username,
        assignee_avatar: avatar,
        repository: repository_response_of(repo, project),
        issue_created_at: issue.issue_created_at,
        issue_closed_at: issue.issue_closed_at,
        created_at: issue.created_at,
        updated_at: issue.updated_at,
        description: issue.description,
        estimation: issue.estimation,
    }
}

/// The issue a row stands for.
pub fn issue_response_from_row(row: IssueRow) -> (r: IssueResponse)
    ensures
        r == issue_response_of_row(row),
{
    let (issue, repo, project, username, avatar) = row;
    IssueResponse {
        id: issue.id,
        issue_id: issue.number,
        title: issue.title,
        labels: issue.labels,
        open: issue.open,
        certified: match issue.certified {
            Some(c) => c,
            None => false,
        },
        assignee_id: issue.assignee_id,
        assignee_username: username,
        assignee_avatar: avatar,
        repository: repository_response(repo, project),
        issue_created_at: issue.issue_created_at,
        issue_closed_at: issue.issue_closed_at,
        created_at: issue.created_at,
        updated_at: issue.updated_at,
        description: issue.description,
        estimation: issue.estimation,
    }
}

/// The issues the rows stand for, in row order.
pub fn issue_responses_from_rows(rows: Vec<IssueRow>) -> (r: Vec<IssueResponse>)
    ensures
        r@ == rows@.map_values(|row: IssueRow| issue_response_of_row(row)),
{
    let ghost all = rows@;
    let mut rows = rows;
    let mut out: Vec<IssueResponse> = Vec::new();
    while rows.len() > 0
        invariant
            out@.len() + rows@.len() == all.len(),
            rows@ == all.skip(out@.len() as int),
            out@ == all.take(out@.len() as int).map_values(|row: IssueRow| issue_response_of_row(row)),
        decreases rows@.len(),
    {
        let ghost k = out@.len() as int;
        let row = rows.remove(0);
        assert(row == all[k]);
        out.push(issue_response_from_row(row));
        assert(all.take(k + 1) =~= all.take(k).push(all[k]));
        assert(out@ =~= all.take(k + 1).map_values(|row: IssueRow| issue_response_of_row(row)));
        assert(rows@ =~= all.skip(k + 1));
    }
    assert(all.take(all.len() as int) =~= all);
    out
}

} // verus!

//! Tasks, task payloads and votes. Times are microseconds since the Unix epoch (UTC).
use vstd::prelude::*;
use crate::api::repositories::models::RepositoryResponse;
use crate::api::users::models::User;

verus! {

/// A task as stored.
#[derive(Clone, Debug, PartialEq, Eq)]
pub struct Task {
    pub id: i32,
    pub number: Option<i32>,
    pub repository_id: Option<i32>,
    pub title: String,
    pub description: Option<String>,
    pub url: Option<String>,
    pub labels: Option<Vec<Option<String>>>,
    pub open: bool,
    pub type_: String,
    pub project_id: Option<i32>,
    pub created_by_user_id: Option<i32>,
    pub assignee_user_id: Option<i32>,
    pub assignee_team_id: Option<i32>,
    pub funding_options: Option<Vec<Option<String>>>,
    pub contact: Option<String>,
    pub skills: Option<Vec<Option<String>>>,
    pub bounty: Option<i32>,
    pub approved_by: Option<Vec<Option<i32>>>,
    pub approved_at: Option<i64>,
    pub status: String,
    pub upvotes: Option<i32>,
    pub downvotes: Option<i32>,
    pub is_featured: Option<bool>,
    pub is_certified: Option<bool>,
    pub featured_by_user_id: Option<i32>,
    pub issue_created_at: Option<i64>,
    pub issue_closed_at: Option<i64>,
    pub created_at: i64,
    pub updated_at: Option<i64>,
}

/// The payload that creates a task.
#[derive(Clone, Debug, PartialEq, Eq)]
pub struct NewTask {
    pub repository_id: Option<i32>,
    pub title: String,
    pub description: Option<String>,
    pub url: Option<String>,
    pub labels: Option<Vec<Option<String>>>,
    pub open: Option<bool>,
    pub type_: String,
    pub project_id: Option<i32>,
    pub created_by_user_id: Option<i32>,
    pub assignee_user_id: Option<i32>,
    pub assignee_team_id: Option<i32>,
    pub funding_options: Option<Vec<Option<String>>>,
    pub contact: Option<String>,
    pub skills: Option<Vec<Option<String>>>,
    pub bounty: Option<i32>,
    pub approved_by: Option<Vec<Option<i32>>>,
    pub status: Option<String>,
    pub is_featured: Option<bool>,
    pub is_certified: Option<bool>,
    pub featured_by_user_id: Option<i32>,
    pub issue_created_at: Option<i64>,
}

/// The payload that changes a task: each field that is present replaces the stored one.
#[derive(Clone, Debug, PartialEq, Eq)]
pub struct UpdateTask {
    pub repository_id: Option<i32>,
    pub title: Option<String>,
    pub description: Option<String>,
    pub url: Option<String>,
    pub labels: Option<Vec<Option<String>>>,
    pub open: Option<bool>,
    pub type_: Option<String>,
    pub project_id: Option<i32>,
    pub assignee_user_id: Option<i32>,
    pub assignee_team_id: Option<i32>,
    pub funding_options: Option<Vec<Option<String>>>,
    pub contact: Option<String>,
    pub skills: Option<Vec<Option<String>>>,
    pub bounty: Option<i32>,
    pub approved_by: Option<Vec<Option<i32>>>,
    pub status: Option<String>,
    pub is_featured: Option<bool>,
    pub is_certified: Option<bool>,
    pub featured_by_user_id: Option<i32>,
}

impl UpdateTask {
    /// At least one field of the payload is present.
    pub open spec fn spec_has_any_field(&self) -> bool {
        ||| self.repository_id is Some
        ||| self.title is Some
        ||| self.description is Some
        ||| self.url is Some
        ||| self.labels is Some
        ||| self.open is Some
        ||| self.type_ is Some
        ||| self.project_id is Some
        ||| self.assignee_user_id is Some
        ||| self.assignee_team_id is Some
        ||| self.funding_options is Some
        ||| self.contact is Some
        ||| self.skills is Some
        ||| self.bounty is Some
        ||| self.approved_by is Some
        ||| self.status is Some
        ||| self.is_featured is Some
        ||| self.is_certified is Some
        ||| self.featured_by_user_id is Some
    }

    /// Whether the payload changes anything at all.
    pub fn has_any_field(&self) -> (r: bool)
        ensures
            r == self.spec_has_any_field(),
    {
        self.repository_id.is_some() || self.title.is_some() || self.description.is_some()
            || self.url.is_some() || self.labels.is_some() || self.open.is_some()
            || self.type_.is_some() || self.project_id.is_some() || self.assignee_user_id.is_some()
            || self.assignee_team_id.is_some() || self.funding_options.is_some()
            || self.contact.is_some() || self.skills.is_some() || self.bounty.is_some()
            || self.approved_by.is_some() || self.status.is_some() || self.is_featured.is_some()
            || self.is_certified.is_some() || self.featured_by_user_id.is_some()
    }
}

impl Default for UpdateTask {
    /// The payload that changes nothing: every field absent.
    fn default() -> (r: UpdateTask)
        ensures
            !r.spec_has_any_field(),
    {
        UpdateTask {
            repository_id: None,
            title: None,
            description: None,
            url: None,
            labels: None,
            open: None,
            type_: None,
            project_id: None,
            assignee_user_id: None,
            assignee_team_id: None,
            funding_options: None,
            contact: None,
            skills: None,
            bounty: None,
            approved_by: None,
            status: None,
            is_featured: None,
            is_certified: None,
            featured_by_user_id: None,
        }
    }
}

/// A task as the API returns it: with its assignee, its repository and project, and the vote
/// of the user who asks.
#[derive(Clone, Debug, PartialEq, Eq)]
pub struct TaskResponse {
    pub id: i32,
    pub number: Option<i32>,
    pub repository_id: Option<i32>,
    pub title: String,
    pub description: Option<String>,
    pub url: Option<String>,
    pub labels: Option<Vec<Option<String>>>,
    pub open: bool,
    pub type_: String,
    pub project_id: Option<i32>,
    pub created_by_user_id: Option<i32>,
    pub assignee_user_id: Option<i32>,
    pub user: Option<User>,
    pub repository: Option<RepositoryResponse>,
    pub assignee_team_id: Option<i32>,
    pub funding_options: Option<Vec<Option<String>>>,
    pub contact: Option<String>,
    pub skills: Option<Vec<Option<String>>>,
    pub bounty: Option<i32>,
    pub approved_by: Option<Vec<Option<i32>>>,
    pub approved_at: Option<i64>,
    pub status: String,
    pub upvotes: Option<i32>,
    pub downvotes: Option<i32>,
    pub user_vote: Option<i32>,
    pub is_featured: Option<bool>,
    pub is_certified: Option<bool>,
    pub featured_by_user_id: Option<i32>,
    pub issue_created_at: Option<i64>,
    pub issue_closed_at: Option<i64>,
    pub created_at: i64,
    pub updated_at: Option<i64>,
}

/// The response for a task, given its assignee, its repository and the asking user's vote:
/// every stored field unchanged.
pub open spec fn task_response_of(
    task: Task,
    user: Option<User>,
    repository: Option<RepositoryResponse>,
    user_vote: Option<i32>,
) -> TaskResponse {
    TaskResponse {
        id: task.id,
        number: task.number,
        repository_id: task.repository_id,
        title: task.title,
        description: task.description,
        url: task.url,
        labels: task.labels,
        open: task.open,
        type_: task.type_,
        project_id: task.project_id,
        created_by_user_id: task.created_by_user_id,
        assignee_user_id: task.assignee_user_id,
        user: user,
        repository: repository,
        assignee_team_id: task.assignee_team_id,
        funding_options: task.funding_options,
        contact: task.contact,
        skills: task.skills,
        bounty: task.bounty,
        approved_by: task.approved_by,
        approved_at: task.approved_at,
        status: task.status,
        upvotes: task.upvotes,
        downvotes: task.downvotes,
        user_vote: user_vote,
        is_featured: task.is_featured,
        is_certified: task.is_certified,
        featured_by_user_id: task.featured_by_user_id,
        issue_created_at: task.issue_created_at,
        issue_closed_at: task.issue_closed_at,
        created_at: task.created_at,
        updated_at: task.updated_at,
    }
}

/// The response for a task, given its assignee, its repository and the asking user's vote.
pub fn task_response(
    task: Task,
    user: Option<User>,
    repository: Option<RepositoryResponse>,
    user_vote: Option<i32>,
) -> (r: TaskResponse)
    ensures
        r == task_response_of(task, user, repository, user_vote),
{
    TaskResponse {
        id: task.id,
        number: task.number,
        repository_id: task.repository_id,
        title: task.title,
        description: task.description,
        url: task.url,
        labels: task.labels,
        open: task.open,
        type_: task.type_,
        project_id: task.project_id,
        created_by_user_id: task.created_by_user_id,
        assignee_user_id: task.assignee_user_id,
        user: user,
        repository: repository,
        assignee_team_id: task.assignee_team_id,
        funding_options: task.funding_options,
        contact: task.contact,
        skills: task.skills,
        bounty: task.bounty,
        approved_by: task.approved_by,
        approved_at: task.approved_at,
        status: task.status,
        upvotes: task.upvotes,
        downvotes: task.downvotes,
        user_vote: user_vote,
        is_featured: task.is_featured,
        is_certified: task.is_certified,
        featured_by_user_id: task.featured_by_user_id,
        issue_created_at: task.issue_created_at,
        issue_closed_at: task.issue_closed_at,
        created_at: task.created_at,
        updated_at: task.updated_at,
    }
}

impl From<Task> for TaskResponse {
    /// A stored task as the API returns it, without assignee, repository or vote.
    fn from(task: Task) -> (r: TaskResponse) {
        task_response(task, None, None, None)
    }
}

impl vstd::std_specs::convert::FromSpecImpl<Task> for TaskResponse {
    open spec fn obeys_from_spec() -> bool {
        true
    }

    open spec fn from_spec(task: Task) -> TaskResponse {
        task_response_of(task, None, None, None)
    }
}

/// The filters of a task listing; absent filters select everything. Times are microseconds
/// since the Unix epoch (UTC).
#[derive(Clone, Debug, PartialEq, Eq)]
pub struct QueryParams {
    pub repository_id: Option<i32>,
    pub labels: Option<String>,
    pub open: Option<bool>,
    pub type_: Option<String>,
    pub project_id: Option<i32>,
    pub created_by_user_id: Option<i32>,
    pub assignee_user_id: Option<i32>,
    pub assignee_team_id: Option<i32>,
    pub funding_options: Option<String>,
    pub contact: Option<String>,
    pub skills: Option<String>,
    pub bounty: Option<i32>,
    pub approved_at: Option<i64>,
    pub status: Option<String>,
    pub upvotes: Option<i32>,
    pub downvotes: Option<i32>,
    pub is_featured: Option<bool>,
    pub is_certified: Option<bool>,
    pub featured_by_user_id: Option<i32>,
    pub issue_created_at: Option<i64>,
    pub issue_closed_at: Option<i64>,
}

/// A vote as stored: `vote` is `1` for an upvote and `-1` for a downvote.
#[derive(Clone, Debug, PartialEq, Eq)]
pub struct TaskVote {
    pub id: i32,
    pub user_id: i32,
    pub task_id: i32,
    pub vote: i32,
}

/// A vote to insert without its value.
#[derive(Clone, Debug, PartialEq, Eq)]
pub struct NewTaskVote {
    pub user_id: i32,
    pub task_id: i32,
}

/// A vote to insert or replace.
#[derive(Clone, Debug, PartialEq, Eq)]
pub struct TaskVoteDB {
    pub user_id: i32,
    pub task_id: i32,
    pub vote: i32,
}

/// The user of a vote.
#[derive(Clone, Debug, PartialEq, Eq)]
pub struct UserVote {
    pub user_id: i32,
}

/// The payload of a vote request: the task voted on.
#[derive(Clone, Debug, PartialEq, Eq)]
pub struct VotePayload {
    pub task_id: i32,
}

} // verus!

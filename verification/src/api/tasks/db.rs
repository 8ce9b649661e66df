//! How the rows read for tasks become the tasks the API returns.
use vstd::prelude::*;
use super::models::{QueryParams, Task, TaskResponse, task_response, task_response_of};
use crate::filters::{given, lemma_concat_contains, lemma_given_contains, lemma_given_len, present, push_present};
use crate::api::projects::models::Project;
use crate::api::repositories::models::{Repository, RepositoryResponse, repository_response, repository_response_of};
use crate::api::users::models::User;

verus! {

/// A task joined with its repository, its project, its assignee and the asking user's vote.
pub type TaskRow = (Task, Option<Repository>, Option<Project>, Option<User>, Option<i32>);

/// The repository of a task as returned: present only when both the repository and the
/// project were found.
pub open spec fn joined_repository(repo: Option<Repository>, project: Option<Project>) -> Option<RepositoryResponse> {
    match (repo, project) {
        (Some(r), Some(p)) => Some(repository_response_of(r, p)),
        _ => None,
    }
}

/// The task a row stands for.
pub open spec fn task_response_of_row(row: TaskRow) -> TaskResponse {
    task_response_of(row.0, row.3, joined_repository(row.1, row.2), row.4)
}

/// The task a row stands for.
pub fn task_response_from_row(row: TaskRow) -> (r: TaskResponse)
    ensures
        r == task_response_of_row(row),
{
    let (task, repo, project, user, user_vote) = row;
    let repository = match (repo, project) {
        (Some(r), Some(p)) => Some(repository_response(r, p)),
        _ => None,
    };
    task_response(task, user, repository, user_vote)
}

/// The tasks the rows stand for, in row order.
pub fn task_responses_from_rows(rows: Vec<TaskRow>) -> (r: Vec<TaskResponse>)
    ensures
        r@ == rows@.map_values(|row: TaskRow| task_response_of_row(row)),
{
    let ghost all = rows@;
    let mut rows = rows;
    let mut out: Vec<TaskResponse> = Vec::new();
    while rows.len() > 0
        invariant
            out@.len() + rows@.len() == all.len(),
            rows@ == all.skip(out@.len() as int),
            out@ == all.take(out@.len() as int).map_values(|row: TaskRow| task_response_of_row(row)),
        decreases rows@.len(),
    {
        let ghost k = out@.len() as int;
        let row = rows.remove(0);
        assert(row == all[k]);
        out.push(task_response_from_row(row));
        assert(all.take(k + 1) =~= all.take(k).push(all[k]));
        assert(out@ =~= all.take(k + 1).map_values(|row: TaskRow| task_response_of_row(row)));
        assert(rows@ =~= all.skip(k + 1));
    }
    assert(all.take(all.len() as int) =~= all);
    out
}

/// One condition of a task listing. A `String` of an `...Overlap` condition is a
/// comma-separated list of values.
#[derive(Clone, Debug, PartialEq, Eq)]
pub enum TaskListingFilter {
    /// The task belongs to this repository.
    RepositoryIs(i32),
    /// The task carries one of the labels.
    LabelsOverlap(String),
    /// The open state is as given.
    Open(bool),
    /// The kind is as given.
    TypeIs(String),
    /// The task belongs to this project.
    ProjectIs(i32),
    /// The task was created by this user.
    CreatedBy(i32),
    /// The task is assigned to this user.
    AssigneeUserIs(i32),
    /// The task is assigned to this team.
    AssigneeTeamIs(i32),
    /// The task offers one of the funding options.
    FundingOptionsOverlap(String),
    /// The contact is as given.
    ContactIs(String),
    /// The task asks for one of the skills.
    SkillsOverlap(String),
    /// The bounty is as given.
    BountyIs(i32),
    /// The task was approved at this time.
    ApprovedAt(i64),
    /// The status is as given.
    StatusIs(String),
    /// The task has at least this many upvotes.
    UpvotesAtLeast(i32),
    /// The task has at most this many downvotes.
    DownvotesAtMost(i32),
    /// The featured flag is as given.
    Featured(bool),
    /// The certified flag is as given.
    Certified(bool),
    /// The task was featured by this user.
    FeaturedBy(i32),
    /// The issue of the task was opened at or after this time.
    IssueCreatedAtLeast(i64),
    /// The issue of the task was closed at or before this time.
    IssueClosedAtMost(i64),
}

/// The conditions on what a task is about and who works on it: repository, labels, open state,
/// kind, project, creator, assignee user and team, funding options, contact, skills.
pub open spec fn task_scope_filters_of(p: QueryParams) -> Seq<TaskListingFilter> {
    given(p.repository_id, |i: i32| TaskListingFilter::RepositoryIs(i))
        + given(p.labels, |s: String| TaskListingFilter::LabelsOverlap(s))
        + given(p.open, |b: bool| TaskListingFilter::Open(b))
        + given(p.type_, |s: String| TaskListingFilter::TypeIs(s))
        + given(p.project_id, |i: i32| TaskListingFilter::ProjectIs(i))
        + given(p.created_by_user_id, |i: i32| TaskListingFilter::CreatedBy(i))
        + given(p.assignee_user_id, |i: i32| TaskListingFilter::AssigneeUserIs(i))
        + given(p.assignee_team_id, |i: i32| TaskListingFilter::AssigneeTeamIs(i))
        + given(p.funding_options, |s: String| TaskListingFilter::FundingOptionsOverlap(s))
        + given(p.contact, |s: String| TaskListingFilter::ContactIs(s))
        + given(p.skills, |s: String| TaskListingFilter::SkillsOverlap(s))
}

/// The conditions on what a task is about and who works on it.
fn task_scope_filters(p: &QueryParams) -> (r: Vec<TaskListingFilter>)
    ensures
        r@ == task_scope_filters_of(*p),
{
    let mut v: Vec<TaskListingFilter> = Vec::new();
    let c = match p.repository_id {
        Some(i) => Some(TaskListingFilter::RepositoryIs(i)),
        None => None,
    };
    push_present(&mut v, c);
    assert(v@ =~= given(p.repository_id, |i: i32| TaskListingFilter::RepositoryIs(i)));
    let c = match &p.labels {
        Some(s) => Some(TaskListingFilter::LabelsOverlap(s.clone())),
        None => None,
    };
    push_present(&mut v, c);
    let c = match p.open {
        Some(b) => Some(TaskListingFilter::Open(b)),
        None => None,
    };
    push_present(&mut v, c);
    let c = match &p.type_ {
        Some(s) => Some(TaskListingFilter::TypeIs(s.clone())),
        None => None,
    };
    push_present(&mut v, c);
    let c = match p.project_id {
        Some(i) => Some(TaskListingFilter::ProjectIs(i)),
        None => None,
    };
    push_present(&mut v, c);
    let c = match p.created_by_user_id {
        Some(i) => Some(TaskListingFilter::CreatedBy(i)),
        None => None,
    };
    push_present(&mut v, c);
    let c = match p.assignee_user_id {
        Some(i) => Some(TaskListingFilter::AssigneeUserIs(i)),
        None => None,
    };
    push_present(&mut v, c);
    let c = match p.assignee_team_id {
        Some(i) => Some(TaskListingFilter::AssigneeTeamIs(i)),
        None => None,
    };
    push_present(&mut v, c);
    let c = match &p.funding_options {
        Some(s) => Some(TaskListingFilter::FundingOptionsOverlap(s.clone())),
        None => None,
    };
    push_present(&mut v, c);
    let c = match &p.contact {
        Some(s) => Some(TaskListingFilter::ContactIs(s.clone())),
        None => None,
    };
    push_present(&mut v, c);
    let c = match &p.skills {
        Some(s) => Some(TaskListingFilter::SkillsOverlap(s.clone())),
        None => None,
    };
    push_present(&mut v, c);
    v
}

/// The conditions on how a task stands: bounty, approval time, status, upvotes, downvotes,
/// featuring, certification, featuring user, opening and closing times of its issue.
pub open spec fn task_standing_filters_of(p: QueryParams) -> Seq<TaskListingFilter> {
    given(p.bounty, |i: i32| TaskListingFilter::BountyIs(i))
        + given(p.approved_at, |t: i64| TaskListingFilter::ApprovedAt(t))
        + given(p.status, |s: String| TaskListingFilter::StatusIs(s))
        + given(p.upvotes, |i: i32| TaskListingFilter::UpvotesAtLeast(i))
        + given(p.downvotes, |i: i32| TaskListingFilter::DownvotesAtMost(i))
        + given(p.is_featured, |b: bool| TaskListingFilter::Featured(b))
        + given(p.is_certified, |b: bool| TaskListingFilter::Certified(b))
        + given(p.featured_by_user_id, |i: i32| TaskListingFilter::FeaturedBy(i))
        + given(p.issue_created_at, |t: i64| TaskListingFilter::IssueCreatedAtLeast(t))
        + given(p.issue_closed_at, |t: i64| TaskListingFilter::IssueClosedAtMost(t))
}

/// The conditions on how a task stands.
fn task_standing_filters(p: &QueryParams) -> (r: Vec<TaskListingFilter>)
    ensures
        r@ == task_standing_filters_of(*p),
{
    let mut v: Vec<TaskListingFilter> = Vec::new();
    let c = match p.bounty {
        Some(i) => Some(TaskListingFilter::BountyIs(i)),
        None => None,
    };
    push_present(&mut v, c);
    assert(v@ =~= given(p.bounty, |i: i32| TaskListingFilter::BountyIs(i)));
    let c = match p.approved_at {
        Some(t) => Some(TaskListingFilter::ApprovedAt(t)),
        None => None,
    };
    push_present(&mut v, c);
    let c = match &p.status {
        Some(s) => Some(TaskListingFilter::StatusIs(s.clone())),
        None => None,
    };
    push_present(&mut v, c);
    let c = match p.upvotes {
        Some(i) => Some(TaskListingFilter::UpvotesAtLeast(i)),
        None => None,
    };
    push_present(&mut v, c);
    let c = match p.downvotes {
        Some(i) => Some(TaskListingFilter::DownvotesAtMost(i)),
        None => None,
    };
    push_present(&mut v, c);
    let c = match p.is_featured {
        Some(b) => Some(TaskListingFilter::Featured(b)),
        None => None,
    };
    push_present(&mut v, c);
    let c = match p.is_certified {
        Some(b) => Some(TaskListingFilter::Certified(b)),
        None => None,
    };
    push_present(&mut v, c);
    let c = match p.featured_by_user_id {
        Some(i) => Some(TaskListingFilter::FeaturedBy(i)),
        None => None,
    };
    push_present(&mut v, c);
    let c = match p.issue_created_at {
        Some(t) => Some(TaskListingFilter::IssueCreatedAtLeast(t)),
        None => None,
    };
    push_present(&mut v, c);
    let c = match p.issue_closed_at {
        Some(t) => Some(TaskListingFilter::IssueClosedAtMost(t)),
        None => None,
    };
    push_present(&mut v, c);
    v
}

/// The conditions of a task listing: one for each parameter that is given, in the order of the
/// parameters.
pub open spec fn task_filters_of(p: QueryParams) -> Seq<TaskListingFilter> {
    task_scope_filters_of(p) + task_standing_filters_of(p)
}

/// The conditions of a task listing.
pub fn task_filters(p: QueryParams) -> (r: Vec<TaskListingFilter>)
    ensures
        r@ == task_filters_of(p),
{
    let mut v = task_scope_filters(&p);
    let mut rest = task_standing_filters(&p);
    v.append(&mut rest);
    v
}

/// What makes a condition among the `task_scope_filters_of`: one of their parameters, given.
proof fn lemma_task_scope_filters_membership(p: QueryParams, x: TaskListingFilter)
    ensures
        task_scope_filters_of(p).contains(x) <==> {
            ||| (p.repository_id matches Some(w) && x == TaskListingFilter::RepositoryIs(w))
            ||| (p.labels matches Some(w) && x == TaskListingFilter::LabelsOverlap(w))
            ||| (p.open matches Some(w) && x == TaskListingFilter::Open(w))
            ||| (p.type_ matches Some(w) && x == TaskListingFilter::TypeIs(w))
            ||| (p.project_id matches Some(w) && x == TaskListingFilter::ProjectIs(w))
            ||| (p.created_by_user_id matches Some(w) && x == TaskListingFilter::CreatedBy(w))
            ||| (p.assignee_user_id matches Some(w) && x == TaskListingFilter::AssigneeUserIs(w))
            ||| (p.assignee_team_id matches Some(w) && x == TaskListingFilter::AssigneeTeamIs(w))
            ||| (p.funding_options matches Some(w) && x == TaskListingFilter::FundingOptionsOverlap(w))
            ||| (p.contact matches Some(w) && x == TaskListingFilter::ContactIs(w))
            ||| (p.skills matches Some(w) && x == TaskListingFilter::SkillsOverlap(w))
        },
        task_scope_filters_of(p).len() == (if p.repository_id is Some { 1int } else { 0int }) + (if p.labels is Some { 1int } else { 0int }) + (if p.open is Some { 1int } else { 0int }) + (if p.type_ is Some { 1int } else { 0int }) + (if p.project_id is Some { 1int } else { 0int }) + (if p.created_by_user_id is Some { 1int } else { 0int }) + (if p.assignee_user_id is Some { 1int } else { 0int }) + (if p.assignee_team_id is Some { 1int } else { 0int }) + (if p.funding_options is Some { 1int } else { 0int }) + (if p.contact is Some { 1int } else { 0int }) + (if p.skills is Some { 1int } else { 0int }),
{
    let g0 = given(p.repository_id, |i: i32| TaskListingFilter::RepositoryIs(i));
    let g1 = given(p.labels, |s: String| TaskListingFilter::LabelsOverlap(s));
    let g2 = given(p.open, |b: bool| TaskListingFilter::Open(b));
    let g3 = given(p.type_, |s: String| TaskListingFilter::TypeIs(s));
    let g4 = given(p.project_id, |i: i32| TaskListingFilter::ProjectIs(i));
    let g5 = given(p.created_by_user_id, |i: i32| TaskListingFilter::CreatedBy(i));
    let g6 = given(p.assignee_user_id, |i: i32| TaskListingFilter::AssigneeUserIs(i));
    let g7 = given(p.assignee_team_id, |i: i32| TaskListingFilter::AssigneeTeamIs(i));
    let g8 = given(p.funding_options, |s: String| TaskListingFilter::FundingOptionsOverlap(s));
    let g9 = given(p.contact, |s: String| TaskListingFilter::ContactIs(s));
    let g10 = given(p.skills, |s: String| TaskListingFilter::SkillsOverlap(s));
    let s0 = g0;
    let s1 = s0 + g1;
    let s2 = s1 + g2;
    let s3 = s2 + g3;
    let s4 = s3 + g4;
    let s5 = s4 + g5;
    let s6 = s5 + g6;
    let s7 = s6 + g7;
    let s8 = s7 + g8;
    let s9 = s8 + g9;
    let s10 = s9 + g10;
    assert(task_scope_filters_of(p) == s10);
    lemma_concat_contains(s9, g10, x);
    lemma_concat_contains(s8, g9, x);
    lemma_concat_contains(s7, g8, x);
    lemma_concat_contains(s6, g7, x);
    lemma_concat_contains(s5, g6, x);
    lemma_concat_contains(s4, g5, x);
    lemma_concat_contains(s3, g4, x);
    lemma_concat_contains(s2, g3, x);
    lemma_concat_contains(s1, g2, x);
    lemma_concat_contains(s0, g1, x);
    lemma_given_contains(p.repository_id, |i: i32| TaskListingFilter::RepositoryIs(i), x);
    lemma_given_len(p.repository_id, |i: i32| TaskListingFilter::RepositoryIs(i));
    lemma_given_contains(p.labels, |s: String| TaskListingFilter::LabelsOverlap(s), x);
    lemma_given_len(p.labels, |s: String| TaskListingFilter::LabelsOverlap(s));
    lemma_given_contains(p.open, |b: bool| TaskListingFilter::Open(b), x);
    lemma_given_len(p.open, |b: bool| TaskListingFilter::Open(b));
    lemma_given_contains(p.type_, |s: String| TaskListingFilter::TypeIs(s), x);
    lemma_given_len(p.type_, |s: String| TaskListingFilter::TypeIs(s));
    lemma_given_contains(p.project_id, |i: i32| TaskListingFilter::ProjectIs(i), x);
    lemma_given_len(p.project_id, |i: i32| TaskListingFilter::ProjectIs(i));
    lemma_given_contains(p.created_by_user_id, |i: i32| TaskListingFilter::CreatedBy(i), x);
    lemma_given_len(p.created_by_user_id, |i: i32| TaskListingFilter::CreatedBy(i));
    lemma_given_contains(p.assignee_user_id, |i: i32| TaskListingFilter::AssigneeUserIs(i), x);
    lemma_given_len(p.assignee_user_id, |i: i32| TaskListingFilter::AssigneeUserIs(i));
    lemma_given_contains(p.assignee_team_id, |i: i32| TaskListingFilter::AssigneeTeamIs(i), x);
    lemma_given_len(p.assignee_team_id, |i: i32| TaskListingFilter::AssigneeTeamIs(i));
    lemma_given_contains(p.funding_options, |s: String| TaskListingFilter::FundingOptionsOverlap(s), x);
    lemma_given_len(p.funding_options, |s: String| TaskListingFilter::FundingOptionsOverlap(s));
    lemma_given_contains(p.contact, |s: String| TaskListingFilter::ContactIs(s), x);
    lemma_given_len(p.contact, |s: String| TaskListingFilter::ContactIs(s));
    lemma_given_contains(p.skills, |s: String| TaskListingFilter::SkillsOverlap(s), x);
    lemma_given_len(p.skills, |s: String| TaskListingFilter::SkillsOverlap(s));
}

/// What makes a condition among the `task_standing_filters_of`: one of their parameters, given.
proof fn lemma_task_standing_filters_membership(p: QueryParams, x: TaskListingFilter)
    ensures
        task_standing_filters_of(p).contains(x) <==> {
            ||| (p.bounty matches Some(w) && x == TaskListingFilter::BountyIs(w))
            ||| (p.approved_at matches Some(w) && x == TaskListingFilter::ApprovedAt(w))
            ||| (p.status matches Some(w) && x == TaskListingFilter::StatusIs(w))
            ||| (p.upvotes matches Some(w) && x == TaskListingFilter::UpvotesAtLeast(w))
            ||| (p.downvotes matches Some(w) && x == TaskListingFilter::DownvotesAtMost(w))
            ||| (p.is_featured matches Some(w) && x == TaskListingFilter::Featured(w))
            ||| (p.is_certified matches Some(w) && x == TaskListingFilter::Certified(w))
            ||| (p.featured_by_user_id matches Some(w) && x == TaskListingFilter::FeaturedBy(w))
            ||| (p.issue_created_at matches Some(w) && x == TaskListingFilter::IssueCreatedAtLeast(w))
            ||| (p.issue_closed_at matches Some(w) && x == TaskListingFilter::IssueClosedAtMost(w))
        },
        task_standing_filters_of(p).len() == (if p.bounty is Some { 1int } else { 0int }) + (if p.approved_at is Some { 1int } else { 0int }) + (if p.status is Some { 1int } else { 0int }) + (if p.upvotes is Some { 1int } else { 0int }) + (if p.downvotes is Some { 1int } else { 0int }) + (if p.is_featured is Some { 1int } else { 0int }) + (if p.is_certified is Some { 1int } else { 0int }) + (if p.featured_by_user_id is Some { 1int } else { 0int }) + (if p.issue_created_at is Some { 1int } else { 0int }) + (if p.issue_closed_at is Some { 1int } else { 0int }),
{
    let g0 = given(p.bounty, |i: i32| TaskListingFilter::BountyIs(i));
    let g1 = given(p.approved_at, |t: i64| TaskListingFilter::ApprovedAt(t));
    let g2 = given(p.status, |s: String| TaskListingFilter::StatusIs(s));
    let g3 = given(p.upvotes, |i: i32| TaskListingFilter::UpvotesAtLeast(i));
    let g4 = given(p.downvotes, |i: i32| TaskListingFilter::DownvotesAtMost(i));
    let g5 = given(p.is_featured, |b: bool| TaskListingFilter::Featured(b));
    let g6 = given(p.is_certified, |b: bool| TaskListingFilter::Certified(b));
    let g7 = given(p.featured_by_user_id, |i: i32| TaskListingFilter::FeaturedBy(i));
    let g8 = given(p.issue_created_at, |t: i64| TaskListingFilter::IssueCreatedAtLeast(t));
    let g9 = given(p.issue_closed_at, |t: i64| TaskListingFilter::IssueClosedAtMost(t));
    let s0 = g0;
    let s1 = s0 + g1;
    let s2 = s1 + g2;
    let s3 = s2 + g3;
    let s4 = s3 + g4;
    let s5 = s4 + g5;
    let s6 = s5 + g6;
    let s7 = s6 + g7;
    let s8 = s7 + g8;
    let s9 = s8 + g9;
    assert(task_standing_filters_of(p) == s9);
    lemma_concat_contains(s8, g9, x);
    lemma_concat_contains(s7, g8, x);
    lemma_concat_contains(s6, g7, x);
    lemma_concat_contains(s5, g6, x);
    lemma_concat_contains(s4, g5, x);
    lemma_concat_contains(s3, g4, x);
    lemma_concat_contains(s2, g3, x);
    lemma_concat_contains(s1, g2, x);
    lemma_concat_contains(s0, g1, x);
    lemma_given_contains(p.bounty, |i: i32| TaskListingFilter::BountyIs(i), x);
    lemma_given_len(p.bounty, |i: i32| TaskListingFilter::BountyIs(i));
    lemma_given_contains(p.approved_at, |t: i64| TaskListingFilter::ApprovedAt(t), x);
    lemma_given_len(p.approved_at, |t: i64| TaskListingFilter::ApprovedAt(t));
    lemma_given_contains(p.status, |s: String| TaskListingFilter::StatusIs(s), x);
    lemma_given_len(p.status, |s: String| TaskListingFilter::StatusIs(s));
    lemma_given_contains(p.upvotes, |i: i32| TaskListingFilter::UpvotesAtLeast(i), x);
    lemma_given_len(p.upvotes, |i: i32| TaskListingFilter::UpvotesAtLeast(i));
    lemma_given_contains(p.downvotes, |i: i32| TaskListingFilter::DownvotesAtMost(i), x);
    lemma_given_len(p.downvotes, |i: i32| TaskListingFilter::DownvotesAtMost(i));
    lemma_given_contains(p.is_featured, |b: bool| TaskListingFilter::Featured(b), x);
    lemma_given_len(p.is_featured, |b: bool| TaskListingFilter::Featured(b));
    lemma_given_contains(p.is_certified, |b: bool| TaskListingFilter::Certified(b), x);
    lemma_given_len(p.is_certified, |b: bool| TaskListingFilter::Certified(b));
    lemma_given_contains(p.featured_by_user_id, |i: i32| TaskListingFilter::FeaturedBy(i), x);
    lemma_given_len(p.featured_by_user_id, |i: i32| TaskListingFilter::FeaturedBy(i));
    lemma_given_contains(p.issue_created_at, |t: i64| TaskListingFilter::IssueCreatedAtLeast(t), x);
    lemma_given_len(p.issue_created_at, |t: i64| TaskListingFilter::IssueCreatedAtLeast(t));
    lemma_given_contains(p.issue_closed_at, |t: i64| TaskListingFilter::IssueClosedAtMost(t), x);
    lemma_given_len(p.issue_closed_at, |t: i64| TaskListingFilter::IssueClosedAtMost(t));
}

/// The number of parameters of a task listing that are given.
pub open spec fn given_task_parameters(p: QueryParams) -> int {
    (if p.repository_id is Some { 1int } else { 0int }) + (if p.labels is Some { 1int } else { 0int }) + (if p.open is Some { 1int } else { 0int }) + (if p.type_ is Some { 1int } else { 0int }) + (if p.project_id is Some { 1int } else { 0int }) + (if p.created_by_user_id is Some { 1int } else { 0int }) + (if p.assignee_user_id is Some { 1int } else { 0int }) + (if p.assignee_team_id is Some { 1int } else { 0int }) + (if p.funding_options is Some { 1int } else { 0int }) + (if p.contact is Some { 1int } else { 0int }) + (if p.skills is Some { 1int } else { 0int }) + (if p.bounty is Some { 1int } else { 0int }) + (if p.approved_at is Some { 1int } else { 0int }) + (if p.status is Some { 1int } else { 0int }) + (if p.upvotes is Some { 1int } else { 0int }) + (if p.downvotes is Some { 1int } else { 0int }) + (if p.is_featured is Some { 1int } else { 0int }) + (if p.is_certified is Some { 1int } else { 0int }) + (if p.featured_by_user_id is Some { 1int } else { 0int }) + (if p.issue_created_at is Some { 1int } else { 0int }) + (if p.issue_closed_at is Some { 1int } else { 0int })
}

/// Each parameter of a task listing restricts the column of its own name, with its own value:
/// a condition is made exactly when its parameter is given with that value, and there is one
/// condition per parameter given.
pub proof fn lemma_task_filters_follow_their_parameters(p: QueryParams, s: String, i: i32, t: i64, b: bool)
    ensures
        task_filters_of(p).contains(TaskListingFilter::RepositoryIs(i)) <==> p.repository_id == Some(i),
        task_filters_of(p).contains(TaskListingFilter::LabelsOverlap(s)) <==> p.labels == Some(s),
        task_filters_of(p).contains(TaskListingFilter::Open(b)) <==> p.open == Some(b),
        task_filters_of(p).contains(TaskListingFilter::TypeIs(s)) <==> p.type_ == Some(s),
        task_filters_of(p).contains(TaskListingFilter::ProjectIs(i)) <==> p.project_id == Some(i),
        task_filters_of(p).contains(TaskListingFilter::CreatedBy(i)) <==> p.created_by_user_id == Some(i),
        task_filters_of(p).contains(TaskListingFilter::AssigneeUserIs(i)) <==> p.assignee_user_id == Some(i),
        task_filters_of(p).contains(TaskListingFilter::AssigneeTeamIs(i)) <==> p.assignee_team_id == Some(i),
        task_filters_of(p).contains(TaskListingFilter::FundingOptionsOverlap(s)) <==> p.funding_options == Some(s),
        task_filters_of(p).contains(TaskListingFilter::ContactIs(s)) <==> p.contact == Some(s),
        task_filters_of(p).contains(TaskListingFilter::SkillsOverlap(s)) <==> p.skills == Some(s),
        task_filters_of(p).contains(TaskListingFilter::BountyIs(i)) <==> p.bounty == Some(i),
        task_filters_of(p).contains(TaskListingFilter::ApprovedAt(t)) <==> p.approved_at == Some(t),
        task_filters_of(p).contains(TaskListingFilter::StatusIs(s)) <==> p.status == Some(s),
        task_filters_of(p).contains(TaskListingFilter::UpvotesAtLeast(i)) <==> p.upvotes == Some(i),
        task_filters_of(p).contains(TaskListingFilter::DownvotesAtMost(i)) <==> p.downvotes == Some(i),
        task_filters_of(p).contains(TaskListingFilter::Featured(b)) <==> p.is_featured == Some(b),
        task_filters_of(p).contains(TaskListingFilter::Certified(b)) <==> p.is_certified == Some(b),
        task_filters_of(p).contains(TaskListingFilter::FeaturedBy(i)) <==> p.featured_by_user_id == Some(i),
        task_filters_of(p).contains(TaskListingFilter::IssueCreatedAtLeast(t)) <==> p.issue_created_at == Some(t),
        task_filters_of(p).contains(TaskListingFilter::IssueClosedAtMost(t)) <==> p.issue_closed_at == Some(t),
        task_filters_of(p).len() == given_task_parameters(p),
{
    lemma_concat_contains(task_scope_filters_of(p), task_standing_filters_of(p), TaskListingFilter::RepositoryIs(i));
    lemma_task_scope_filters_membership(p, TaskListingFilter::RepositoryIs(i));
    lemma_task_standing_filters_membership(p, TaskListingFilter::RepositoryIs(i));
    lemma_concat_contains(task_scope_filters_of(p), task_standing_filters_of(p), TaskListingFilter::LabelsOverlap(s));
    lemma_task_scope_filters_membership(p, TaskListingFilter::LabelsOverlap(s));
    lemma_task_standing_filters_membership(p, TaskListingFilter::LabelsOverlap(s));
    lemma_concat_contains(task_scope_filters_of(p), task_standing_filters_of(p), TaskListingFilter::Open(b));
    lemma_task_scope_filters_membership(p, TaskListingFilter::Open(b));
    lemma_task_standing_filters_membership(p, TaskListingFilter::Open(b));
    lemma_concat_contains(task_scope_filters_of(p), task_standing_filters_of(p), TaskListingFilter::TypeIs(s));
    lemma_task_scope_filters_membership(p, TaskListingFilter::TypeIs(s));
    lemma_task_standing_filters_membership(p, TaskListingFilter::TypeIs(s));
    lemma_concat_contains(task_scope_filters_of(p), task_standing_filters_of(p), TaskListingFilter::ProjectIs(i));
    lemma_task_scope_filters_membership(p, TaskListingFilter::ProjectIs(i));
    lemma_task_standing_filters_membership(p, TaskListingFilter::ProjectIs(i));
    lemma_concat_contains(task_scope_filters_of(p), task_standing_filters_of(p), TaskListingFilter::CreatedBy(i));
    lemma_task_scope_filters_membership(p, TaskListingFilter::CreatedBy(i));
    lemma_task_standing_filters_membership(p, TaskListingFilter::CreatedBy(i));
    lemma_concat_contains(task_scope_filters_of(p), task_standing_filters_of(p), TaskListingFilter::AssigneeUserIs(i));
    lemma_task_scope_filters_membership(p, TaskListingFilter::AssigneeUserIs(i));
    lemma_task_standing_filters_membership(p, TaskListingFilter::AssigneeUserIs(i));
    lemma_concat_contains(task_scope_filters_of(p), task_standing_filters_of(p), TaskListingFilter::AssigneeTeamIs(i));
    lemma_task_scope_filters_membership(p, TaskListingFilter::AssigneeTeamIs(i));
    lemma_task_standing_filters_membership(p, TaskListingFilter::AssigneeTeamIs(i));
    lemma_concat_contains(task_scope_filters_of(p), task_standing_filters_of(p), TaskListingFilter::FundingOptionsOverlap(s));
    lemma_task_scope_filters_membership(p, TaskListingFilter::FundingOptionsOverlap(s));
    lemma_task_standing_filters_membership(p, TaskListingFilter::FundingOptionsOverlap(s));
    lemma_concat_contains(task_scope_filters_of(p), task_standing_filters_of(p), TaskListingFilter::ContactIs(s));
    lemma_task_scope_filters_membership(p, TaskListingFilter::ContactIs(s));
    lemma_task_standing_filters_membership(p, TaskListingFilter::ContactIs(s));
    lemma_concat_contains(task_scope_filters_of(p), task_standing_filters_of(p), TaskListingFilter::SkillsOverlap(s));
    lemma_task_scope_filters_membership(p, TaskListingFilter::SkillsOverlap(s));
    lemma_task_standing_filters_membership(p, TaskListingFilter::SkillsOverlap(s));
    lemma_concat_contains(task_scope_filters_of(p), task_standing_filters_of(p), TaskListingFilter::BountyIs(i));
    lemma_task_scope_filters_membership(p, TaskListingFilter::BountyIs(i));
    lemma_task_standing_filters_membership(p, TaskListingFilter::BountyIs(i));
    lemma_concat_contains(task_scope_filters_of(p), task_standing_filters_of(p), TaskListingFilter::ApprovedAt(t));
    lemma_task_scope_filters_membership(p, TaskListingFilter::ApprovedAt(t));
    lemma_task_standing_filters_membership(p, TaskListingFilter::ApprovedAt(t));
    lemma_concat_contains(task_scope_filters_of(p), task_standing_filters_of(p), TaskListingFilter::StatusIs(s));
    lemma_task_scope_filters_membership(p, TaskListingFilter::StatusIs(s));
    lemma_task_standing_filters_membership(p, TaskListingFilter::StatusIs(s));
    lemma_concat_contains(task_scope_filters_of(p), task_standing_filters_of(p), TaskListingFilter::UpvotesAtLeast(i));
    lemma_task_scope_filters_membership(p, TaskListingFilter::UpvotesAtLeast(i));
    lemma_task_standing_filters_membership(p, TaskListingFilter::UpvotesAtLeast(i));
    lemma_concat_contains(task_scope_filters_of(p), task_standing_filters_of(p), TaskListingFilter::DownvotesAtMost(i));
    lemma_task_scope_filters_membership(p, TaskListingFilter::DownvotesAtMost(i));
    lemma_task_standing_filters_membership(p, TaskListingFilter::DownvotesAtMost(i));
    lemma_concat_contains(task_scope_filters_of(p), task_standing_filters_of(p), TaskListingFilter::Featured(b));
    lemma_task_scope_filters_membership(p, TaskListingFilter::Featured(b));
    lemma_task_standing_filters_membership(p, TaskListingFilter::Featured(b));
    lemma_concat_contains(task_scope_filters_of(p), task_standing_filters_of(p), TaskListingFilter::Certified(b));
    lemma_task_scope_filters_membership(p, TaskListingFilter::Certified(b));
    lemma_task_standing_filters_membership(p, TaskListingFilter::Certified(b));
    lemma_concat_contains(task_scope_filters_of(p), task_standing_filters_of(p), TaskListingFilter::FeaturedBy(i));
    lemma_task_scope_filters_membership(p, TaskListingFilter::FeaturedBy(i));
    lemma_task_standing_filters_membership(p, TaskListingFilter::FeaturedBy(i));
    lemma_concat_contains(task_scope_filters_of(p), task_standing_filters_of(p), TaskListingFilter::IssueCreatedAtLeast(t));
    lemma_task_scope_filters_membership(p, TaskListingFilter::IssueCreatedAtLeast(t));
    lemma_task_standing_filters_membership(p, TaskListingFilter::IssueCreatedAtLeast(t));
    lemma_concat_contains(task_scope_filters_of(p), task_standing_filters_of(p), TaskListingFilter::IssueClosedAtMost(t));
    lemma_task_scope_filters_membership(p, TaskListingFilter::IssueClosedAtMost(t));
    lemma_task_standing_filters_membership(p, TaskListingFilter::IssueClosedAtMost(t));
    lemma_task_scope_filters_membership(p, TaskListingFilter::Open(b));
    lemma_task_standing_filters_membership(p, TaskListingFilter::Open(b));
}

/// The user whose votes a task read shows: the user who asks, or no user (`-1`) for an
/// anonymous request.
pub fn voter_id(current_user_id: Option<i32>) -> (id: i32)
    ensures
        id == (match current_user_id {
            Some(u) => u,
            None => -1i32,
        }),
{
    match current_user_id {
        Some(u) => u,
        None => -1,
    }
}

} // verus!

//! The decisions of the task endpoints: who may create, change, delete and vote on tasks,
//! how a new task is completed before it is stored, and what a failed store answers.
use vstd::prelude::*;
use super::errors::TaskError;
use super::models::{NewTask, TaskVoteDB, UpdateTask};
use super::utils::{is_task_type, invalid_type_text, validate_task_type};
use crate::api::roles::errors::RoleError;
use crate::api::roles::models::{KudosRole, RoleView, roles_view};
use crate::api::roles::utils::{has_at_least_one_role, missing_roles_text, user_has_at_least_one_role};
use crate::text::{has_substring, str_contains};

verus! {

/// The database constraint that a task's project must exist.
pub const TASK_PROJECT_CONSTRAINT: &'static str = "tasks_project_id_fkey";

/// The maintainer requirement of an action on a task of the given project: a maintainer of that
/// project, or of any project when the task names none.
pub open spec fn maintainer_of(project_id: Option<i32>) -> RoleView {
    match project_id {
        Some(id) => RoleView::MaintainerWithProjects(Some(seq![id])),
        None => RoleView::MaintainerWithProjects(None),
    }
}

fn maintainer_role(project_id: Option<i32>) -> (r: KudosRole)
    ensures
        r@ == maintainer_of(project_id),
{
    match project_id {
        Some(id) => {
            let mut ids: Vec<i32> = Vec::new();
            ids.push(id);
            assert(ids@ =~= seq![id]);
            KudosRole::MaintainerWithProjects(Some(ids))
        },
        None => KudosRole::MaintainerWithProjects(None),
    }
}

/// The payload of a new task sets a field that only curators may set: an assignee, a
/// certification or featuring, a repository, a project or approvers.
pub open spec fn sets_curated_fields(task: NewTask) -> bool {
    ||| task.assignee_team_id is Some
    ||| task.assignee_user_id is Some
    ||| task.is_certified is Some
    ||| task.featured_by_user_id is Some
    ||| task.is_featured is Some
    ||| task.repository_id is Some
    ||| task.project_id is Some
    ||| task.approved_by is Some
}

/// The roles that may create the task: admins, maintainers of its project and ecosystem
/// architects, and also contributors when the payload sets no curated field.
pub open spec fn task_creation_roles(task: NewTask) -> Seq<RoleView> {
    if sets_curated_fields(task) {
        seq![RoleView::Admin, maintainer_of(task.project_id), RoleView::EcosystemArchitect]
    } else {
        seq![
            RoleView::Admin,
            RoleView::Contributor,
            maintainer_of(task.project_id),
            RoleView::EcosystemArchitect,
        ]
    }
}

/// The roles that may change a task with the given payload: admins, maintainers of the
/// payload's project and ecosystem architects.
pub open spec fn task_update_roles(task: UpdateTask) -> Seq<RoleView> {
    seq![RoleView::Admin, maintainer_of(task.project_id), RoleView::EcosystemArchitect]
}

/// The roles that may delete a task.
pub open spec fn task_deletion_roles() -> Seq<RoleView> {
    seq![RoleView::Admin, RoleView::EcosystemArchitect]
}

/// The roles that may vote on a task: every role, maintainers of any project included.
pub open spec fn voting_roles() -> Seq<RoleView> {
    seq![
        RoleView::Admin,
        RoleView::Contributor,
        RoleView::MaintainerWithProjects(None),
        RoleView::EcosystemArchitect,
    ]
}

/// Whether the payload of a new task sets a field that only curators may set.
pub fn sets_curated_field(task: &NewTask) -> (r: bool)
    ensures
        r == sets_curated_fields(*task),
{
    task.assignee_team_id.is_some() || task.assignee_user_id.is_some()
        || task.is_certified.is_some() || task.featured_by_user_id.is_some()
        || task.is_featured.is_some() || task.repository_id.is_some()
        || task.project_id.is_some() || task.approved_by.is_some()
}

/// The roles that may create the task.
pub fn creation_roles(task: &NewTask) -> (r: Vec<KudosRole>)
    ensures
        roles_view(r@) == task_creation_roles(*task),
{
    let mut r: Vec<KudosRole> = Vec::new();
    r.push(KudosRole::Admin);
    if !sets_curated_field(task) {
        r.push(KudosRole::Contributor);
    }
    r.push(maintainer_role(task.project_id));
    r.push(KudosRole::EcosystemArchitect);
    assert(roles_view(r@) =~= task_creation_roles(*task));
    r
}

/// The roles that may change a task with the given payload.
pub fn update_roles(task: &UpdateTask) -> (r: Vec<KudosRole>)
    ensures
        roles_view(r@) == task_update_roles(*task),
{
    let mut r: Vec<KudosRole> = Vec::new();
    r.push(KudosRole::Admin);
    r.push(maintainer_role(task.project_id));
    r.push(KudosRole::EcosystemArchitect);
    assert(roles_view(r@) =~= task_update_roles(*task));
    r
}

/// The roles that may delete a task.
pub fn deletion_roles() -> (r: Vec<KudosRole>)
    ensures
        roles_view(r@) == task_deletion_roles(),
{
    let mut r: Vec<KudosRole> = Vec::new();
    r.push(KudosRole::Admin);
    r.push(KudosRole::EcosystemArchitect);
    assert(roles_view(r@) =~= task_deletion_roles());
    r
}

/// The roles that may vote on a task.
pub fn vote_roles() -> (r: Vec<KudosRole>)
    ensures
        roles_view(r@) == voting_roles(),
{
    let mut r: Vec<KudosRole> = Vec::new();
    r.push(KudosRole::Admin);
    r.push(KudosRole::Contributor);
    r.push(KudosRole::MaintainerWithProjects(None));
    r.push(KudosRole::EcosystemArchitect);
    assert(roles_view(r@) =~= voting_roles());
    r
}

/// Whether a user with the given roles may create the task; a refusal names the missing roles.
pub fn authorize_task_creation(user_roles: Vec<KudosRole>, task: &NewTask) -> (r: Result<(), RoleError>)
    ensures
        r is Ok <==> has_at_least_one_role(roles_view(user_roles@), task_creation_roles(*task)),
        r is Err ==> (r matches Err(RoleError::MissingRole(m)) && m@ == missing_roles_text(
            roles_view(user_roles@),
            task_creation_roles(*task),
        )),
{
    user_has_at_least_one_role(user_roles, creation_roles(task))
}

/// Whether a user with the given roles may change a task with the given payload.
pub fn authorize_task_update(user_roles: Vec<KudosRole>, task: &UpdateTask) -> (r: Result<(), RoleError>)
    ensures
        r is Ok <==> has_at_least_one_role(roles_view(user_roles@), task_update_roles(*task)),
        r is Err ==> (r matches Err(RoleError::MissingRole(m)) && m@ == missing_roles_text(
            roles_view(user_roles@),
            task_update_roles(*task),
        )),
{
    user_has_at_least_one_role(user_roles, update_roles(task))
}

/// Whether a user with the given roles may delete a task.
pub fn authorize_task_deletion(user_roles: Vec<KudosRole>) -> (r: Result<(), RoleError>)
    ensures
        r is Ok <==> has_at_least_one_role(roles_view(user_roles@), task_deletion_roles()),
        r is Err ==> (r matches Err(RoleError::MissingRole(m)) && m@ == missing_roles_text(
            roles_view(user_roles@),
            task_deletion_roles(),
        )),
{
    user_has_at_least_one_role(user_roles, deletion_roles())
}

/// Whether a user with the given roles may vote on a task.
pub fn authorize_vote(user_roles: Vec<KudosRole>) -> (r: Result<(), RoleError>)
    ensures
        r is Ok <==> has_at_least_one_role(roles_view(user_roles@), voting_roles()),
        r is Err ==> (r matches Err(RoleError::MissingRole(m)) && m@ == missing_roles_text(
            roles_view(user_roles@),
            voting_roles(),
        )),
{
    user_has_at_least_one_role(user_roles, vote_roles())
}

/// Completes a new task before it is stored: its creator is the user who sends it, and its
/// kind must be one a task may have.
pub fn prepare_new_task(task: NewTask, creator_id: i32) -> (r: Result<NewTask, TaskError>)
    ensures
        r is Ok <==> is_task_type(task.type_@),
        r matches Ok(t) ==> t == (NewTask { created_by_user_id: Some(creator_id), ..task }),
        r is Err ==> (r matches Err(TaskError::InvalidPayload(m)) && m@ == invalid_type_text()),
{
    let mut task = task;
    task.created_by_user_id = Some(creator_id);
    match validate_task_type(task.type_.as_str()) {
        Ok(()) => Ok(task),
        Err(e) => Err(e),
    }
}

/// Checks the kind of a task change, when the change sets one.
pub fn validate_update_type(task: &UpdateTask) -> (r: Result<(), TaskError>)
    ensures
        r is Ok <==> (task.type_ matches Some(t) ==> is_task_type(t@)),
        r is Err ==> (r matches Err(TaskError::InvalidPayload(m)) && m@ == invalid_type_text()),
{
    match &task.type_ {
        Some(t) => validate_task_type(t.as_str()),
        None => Ok(()),
    }
}

/// The answer to a task that the database refused to store, given the database's error text:
/// a missing project when the project constraint was broken, otherwise a generic failure.
pub fn creation_failure(error_text: &str, project_id: Option<i32>) -> (r: TaskError)
    requires
        has_substring(error_text@, TASK_PROJECT_CONSTRAINT@) ==> project_id is Some,
    ensures
        has_substring(error_text@, TASK_PROJECT_CONSTRAINT@) ==> r == TaskError::ProjectNotFound(
            project_id->0,
        ),
        !has_substring(error_text@, TASK_PROJECT_CONSTRAINT@) ==> (r matches TaskError::CannotCreate(m)
            && m@ == "error creating the task"@),
{
    if str_contains(error_text, TASK_PROJECT_CONSTRAINT) {
        match project_id {
            Some(id) => TaskError::ProjectNotFound(id),
            None => TaskError::CannotCreate("error creating the task".to_owned()),
        }
    } else {
        TaskError::CannotCreate("error creating the task".to_owned())
    }
}

/// The vote a user casts on a task: `1` for an upvote, `-1` for a downvote.
pub fn vote_record(user_id: i32, task_id: i32, upvote: bool) -> (v: TaskVoteDB)
    ensures
        v.user_id == user_id,
        v.task_id == task_id,
        v.vote == (if upvote { 1i32 } else { -1i32 }),
{
    TaskVoteDB { user_id, task_id, vote: if upvote { 1 } else { -1 } }
}

} // verus!

verus! {

/// The answer to a vote removal: done whether or not there was a vote to remove; a removal the
/// database refused is a failure.
pub fn vote_removal_outcome<E>(removed: Result<usize, E>) -> (r: Result<(), TaskError>)
    ensures
        removed is Ok ==> r is Ok,
        removed is Err ==> (r matches Err(TaskError::CannotDelete(m)) && m@ == "Failed to delete vote"@),
{
    match removed {
        Ok(_) => Ok(()),
        Err(_) => Err(TaskError::CannotDelete("Failed to delete vote".to_owned())),
    }
}

/// The answer to a task change the database refused.
pub fn task_update_failure() -> (r: TaskError)
    ensures
        r matches TaskError::CannotUpdate(m) && m@ == "error updating the task"@,
{
    TaskError::CannotUpdate("error updating the task".to_owned())
}

/// The answer to a vote the database refused.
pub fn vote_failure() -> (r: TaskError)
    ensures
        r matches TaskError::CannotCreate(m) && m@ == "error creating vote"@,
{
    TaskError::CannotCreate("error creating vote".to_owned())
}

} // verus!

verus! {

/// Curating is the stricter permission: a user who may create a task that sets curated fields
/// but names no project may create any task that sets none.
pub proof fn lemma_curating_implies_plain_creation(
    user_roles: Seq<RoleView>,
    curated: NewTask,
    plain: NewTask,
)
    requires
        sets_curated_fields(curated),
        curated.project_id is None,
        !sets_curated_fields(plain),
        has_at_least_one_role(user_roles, task_creation_roles(curated)),
    ensures
        has_at_least_one_role(user_roles, task_creation_roles(plain)),
{
    let r1 = task_creation_roles(curated);
    let r2 = task_creation_roles(plain);
    assert(r2[0] == r1[0] && r2[2] == r1[1] && r2[3] == r1[2]);
    assert forall|j: int| 0 <= j < r1.len() implies r2.contains(#[trigger] r1[j]) by {
        if j == 0 {
            assert(r2[0] == r1[j]);
        } else if j == 1 {
            assert(r2[2] == r1[j]);
        } else {
            assert(r2[3] == r1[j]);
        }
    }
    crate::api::roles::utils::lemma_more_admitted_roles_keep_access(user_roles, r1, r2);
}

/// Admins and ecosystem architects may create, change, delete and vote on every task.
pub proof fn lemma_curators_may_do_everything(user_roles: Seq<RoleView>, new_task: NewTask, change: UpdateTask)
    requires
        user_roles.contains(RoleView::Admin) || user_roles.contains(RoleView::EcosystemArchitect),
    ensures
        has_at_least_one_role(user_roles, task_creation_roles(new_task)),
        has_at_least_one_role(user_roles, task_update_roles(change)),
        has_at_least_one_role(user_roles, task_deletion_roles()),
        has_at_least_one_role(user_roles, voting_roles()),
{
    let role = if user_roles.contains(RoleView::Admin) { RoleView::Admin } else { RoleView::EcosystemArchitect };
    let i = choose|i: int| 0 <= i < user_roles.len() && user_roles[i] == role;
    assert(crate::api::roles::utils::role_grants(user_roles[i], role));
    assert(crate::api::roles::utils::role_satisfied(user_roles, role));
    let c = task_creation_roles(new_task);
    let u = task_update_roles(change);
    let d = task_deletion_roles();
    let v = voting_roles();
    if role == RoleView::Admin {
        assert(c[0] == role && u[0] == role && d[0] == role && v[0] == role);
    } else {
        assert(c[c.len() - 1] == role && u[2] == role && d[1] == role && v[3] == role);
    }
}

/// A contributor, holding no other role, may create tasks that set no curated field and may
/// vote, but may neither delete tasks nor create curated ones.
pub proof fn lemma_contributor_permissions(new_task: NewTask)
    ensures
        !sets_curated_fields(new_task) ==> has_at_least_one_role(seq![RoleView::Contributor], task_creation_roles(new_task)),
        sets_curated_fields(new_task) ==> !has_at_least_one_role(seq![RoleView::Contributor], task_creation_roles(new_task)),
        has_at_least_one_role(seq![RoleView::Contributor], voting_roles()),
        !has_at_least_one_role(seq![RoleView::Contributor], task_deletion_roles()),
{
    let u = seq![RoleView::Contributor];
    assert(crate::api::roles::utils::role_grants(u[0], RoleView::Contributor));
    assert(crate::api::roles::utils::role_satisfied(u, RoleView::Contributor));
    assert(voting_roles()[1] == RoleView::Contributor);
    if !sets_curated_fields(new_task) {
        assert(task_creation_roles(new_task)[1] == RoleView::Contributor);
    } else {
        let r = task_creation_roles(new_task);
        assert forall|j: int| 0 <= j < r.len() implies !crate::api::roles::utils::role_satisfied(u, #[trigger] r[j]) by {
            assert forall|i: int| 0 <= i < u.len() implies !crate::api::roles::utils::role_grants(#[trigger] u[i], r[j]) by {
                assert(u[i] == RoleView::Contributor);
            }
        }
    }
    let d = task_deletion_roles();
    assert forall|j: int| 0 <= j < d.len() implies !crate::api::roles::utils::role_satisfied(u, #[trigger] d[j]) by {
        assert forall|i: int| 0 <= i < u.len() implies !crate::api::roles::utils::role_grants(#[trigger] u[i], d[j]) by {
            assert(u[i] == RoleView::Contributor);
        }
    }
}

/// A contributor who holds no other role may create a task exactly when its payload leaves
/// every curated field absent: the assignee team and user, the certification, the featuring and
/// the featuring user, the repository, the project and the approvers. No other field of the
/// payload (title, description, labels, bounty, ...) plays a part.
pub proof fn lemma_contributor_creates_exactly_uncurated_tasks(new_task: NewTask)
    ensures
        has_at_least_one_role(seq![RoleView::Contributor], task_creation_roles(new_task)) <==> (new_task.assignee_team_id is None && new_task.assignee_user_id is None && new_task.is_certified is None && new_task.featured_by_user_id is None && new_task.is_featured is None && new_task.repository_id is None && new_task.project_id is None && new_task.approved_by is None),
{
    lemma_contributor_permissions(new_task);
}

/// Who may create a task depends only on the curated fields of its payload: two payloads that
/// agree on them are granted to the same users, whatever their other fields.
pub proof fn lemma_creation_depends_only_on_curated_fields(user_roles: Seq<RoleView>, a: NewTask, b: NewTask)
    requires
        a.assignee_team_id == b.assignee_team_id,
        a.assignee_user_id == b.assignee_user_id,
        a.is_certified == b.is_certified,
        a.featured_by_user_id == b.featured_by_user_id,
        a.is_featured == b.is_featured,
        a.repository_id == b.repository_id,
        a.project_id == b.project_id,
        a.approved_by == b.approved_by,
    ensures
        has_at_least_one_role(user_roles, task_creation_roles(a)) == has_at_least_one_role(
            user_roles,
            task_creation_roles(b),
        ),
{
    assert(task_creation_roles(a) == task_creation_roles(b));
}

} // verus!

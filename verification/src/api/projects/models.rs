//! Projects.
use vstd::prelude::*;

verus! {

/// A project as stored. Times are microseconds since the Unix epoch (UTC).
#[derive(Clone, Debug, PartialEq, Eq)]
pub struct Project {
    pub id: i32,
    pub name: String,
    pub slug: String,
    pub types: Option<Vec<Option<String>>>,
    pub purposes: Option<Vec<Option<String>>>,
    pub stack_levels: Option<Vec<Option<String>>>,
    pub technologies: Option<Vec<Option<String>>>,
    pub avatar: Option<String>,
    pub rewards: Option<bool>,
    pub created_at: i64,
    pub updated_at: Option<i64>,
}

/// The filters of a project listing; absent filters select everything.
#[derive(Clone, Debug, PartialEq, Eq)]
pub struct QueryParams {
    pub slugs: Option<String>,
    pub purposes: Option<String>,
    pub stack_levels: Option<String>,
    pub technologies: Option<String>,
    pub rewards: Option<bool>,
    pub certified: Option<bool>,
    pub labels: Option<String>,
    pub open: Option<bool>,
    pub certified_or_labels: Option<bool>,
}

/// The payload that creates a project.
#[derive(Clone, Debug, PartialEq, Eq)]
pub struct NewProject {
    pub name: String,
    pub slug: String,
    pub purposes: Option<Vec<Option<String>>>,
    pub stack_levels: Option<Vec<Option<String>>>,
    pub technologies: Option<Vec<Option<String>>>,
}

/// The payload that changes a project: each field that is present replaces the stored one.
#[derive(Clone, Debug, PartialEq, Eq)]
pub struct UpdateProject {
    pub name: Option<String>,
    pub slug: Option<String>,
    pub purposes: Option<Vec<Option<String>>>,
    pub stack_levels: Option<Vec<Option<String>>>,
    pub technologies: Option<Vec<Option<String>>>,
}

/// The values the projects of a listing use, each once.
#[derive(Clone, Debug, PartialEq, Eq)]
pub struct ProjectOptions {
    pub types: Option<Vec<Option<String>>>,
    pub purposes: Option<Vec<Option<String>>>,
}

/// A project as the API returns it.
#[derive(Clone, Debug, PartialEq, Eq)]
pub struct ProjectResponse {
    pub id: i32,
    pub name: String,
    pub slug: String,
    pub purposes: Option<Vec<Option<String>>>,
    pub stack_levels: Option<Vec<Option<String>>>,
    pub technologies: Option<Vec<Option<String>>>,
    pub avatar: Option<String>,
    pub created_at: i64,
    pub updated_at: Option<i64>,
    pub rewards: Option<bool>,
}

/// The response the API gives for a project.
pub open spec fn project_response_of(p: Project) -> ProjectResponse {
    ProjectResponse {
        id: p.id,
        name: p.name,
        slug: p.slug,
        purposes: p.purposes,
        stack_levels: p.stack_levels,
        technologies: p.technologies,
        avatar: p.avatar,
        created_at: p.created_at,
        updated_at: p.updated_at,
        rewards: p.rewards,
    }
}

/// The response the API gives for a project: every field but `types`, unchanged.
pub fn project_response(p: Project) -> (r: ProjectResponse)
    ensures
        r == project_response_of(p),
{
    ProjectResponse {
        id: p.id,
        name: p.name,
        slug: p.slug,
        purposes: p.purposes,
        stack_levels: p.stack_levels,
        technologies: p.technologies,
        avatar: p.avatar,
        created_at: p.created_at,
        updated_at: p.updated_at,
        rewards: p.rewards,
    }
}

} // verus!

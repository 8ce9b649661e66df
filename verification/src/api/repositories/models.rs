//! Repositories.
use vstd::prelude::*;
use crate::api::projects::models::{Project, ProjectResponse, project_response, project_response_of};

verus! {

/// A repository as stored. Times are microseconds since the Unix epoch (UTC).
#[derive(Clone, Debug, PartialEq, Eq)]
pub struct Repository {
    pub id: i32,
    pub slug: String,
    pub name: String,
    pub url: String,
    pub language_slug: Option<String>,
    pub project_id: i32,
    pub created_at: i64,
    pub updated_at: Option<i64>,
}

/// The filters of a repository listing: comma-separated lists; absent filters select everything.
#[derive(Clone, Debug, PartialEq, Eq)]
pub struct QueryParams {
    pub slugs: Option<String>,
    pub names: Option<String>,
    pub languages: Option<String>,
    pub project_ids: Option<String>,
}

/// The filters of the language listing.
#[derive(Clone, Debug, PartialEq, Eq)]
pub struct LanguageQueryParams {
    pub labels: Option<String>,
    pub with_technologies: Option<bool>,
}

/// The payload that creates a repository.
#[derive(Clone, Debug, PartialEq, Eq)]
pub struct NewRepository {
    pub slug: String,
    pub name: String,
    pub url: String,
    pub language_slug: Option<String>,
    pub project_id: i32,
}

/// The payload that changes a repository: each field that is present replaces the stored one.
#[derive(Clone, Debug, PartialEq, Eq)]
pub struct UpdateRepository {
    pub slug: Option<String>,
    pub name: Option<String>,
    pub url: Option<String>,
    pub language_slug: Option<String>,
    pub project_id: Option<i32>,
}

/// A repository as the API returns it, with its project.
#[derive(Clone, Debug, PartialEq, Eq)]
pub struct RepositoryResponse {
    pub id: i32,
    pub slug: String,
    pub name: String,
    pub url: String,
    pub language_slug: Option<String>,
    pub project: ProjectResponse,
    pub created_at: i64,
    pub updated_at: Option<i64>,
}

/// The response the API gives for a repository and the project it belongs to.
pub open spec fn repository_response_of(r: Repository, p: Project) -> RepositoryResponse {
    RepositoryResponse {
        id: r.id,
        slug: r.slug,
        name: r.name,
        url: r.url,
        language_slug: r.language_slug,
        project: project_response_of(p),
        created_at: r.created_at,
        updated_at: r.updated_at,
    }
}

/// The response the API gives for a repository and the project it belongs to.
pub fn repository_response(r: Repository, p: Project) -> (resp: RepositoryResponse)
    ensures
        resp == repository_response_of(r, p),
{
    RepositoryResponse {
        id: r.id,
        slug: r.slug,
        name: r.name,
        url: r.url,
        language_slug: r.language_slug,
        project: project_response(p),
        created_at: r.created_at,
        updated_at: r.updated_at,
    }
}

} // verus!

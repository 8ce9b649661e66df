//! Teams and their members. Times are microseconds since the Unix epoch (UTC).
use vstd::prelude::*;

verus! {

/// A team as stored.
#[derive(Clone, Debug, PartialEq, Eq)]
pub struct Team {
    pub id: i32,
    pub name: String,
    pub description: Option<String>,
    pub created_by_user_id: i32,
    pub created_at: i64,
    pub updated_at: Option<i64>,
}

/// The payload that creates a team.
#[derive(Clone, Debug, PartialEq, Eq)]
pub struct NewTeam {
    pub name: String,
    pub description: Option<String>,
    pub created_by_user_id: i32,
}

/// The payload that changes a team: each field that is present replaces the stored one.
#[derive(Clone, Debug, PartialEq, Eq)]
pub struct UpdateTeam {
    pub name: Option<String>,
    pub description: Option<String>,
}

/// A membership as stored.
#[derive(Clone, Debug, PartialEq, Eq)]
pub struct TeamMembership {
    pub id: i32,
    pub team_id: i32,
    pub user_id: i32,
    pub role: String,
    pub joined_at: i64,
}

/// A membership to store.
#[derive(Clone, Debug, PartialEq, Eq)]
pub struct NewTeamMembership {
    pub team_id: i32,
    pub user_id: i32,
    pub role: String,
}

/// The payload that adds a member to a team.
#[derive(Clone, Debug, PartialEq, Eq)]
pub struct NewTeamMembershipPayload {
    pub user_id: i32,
    pub role: String,
}

/// The payload that changes a member's role.
#[derive(Clone, Debug, PartialEq, Eq)]
pub struct UpdateTeamMembershipRole {
    pub role: Option<String>,
}

} // verus!

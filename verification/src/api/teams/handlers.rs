//! The decisions of the team endpoints: what a failed operation answers.
use vstd::prelude::*;
use super::errors::TeamError;
use super::models::{NewTeamMembership, NewTeamMembershipPayload};
use crate::text::concat2;

verus! {

/// An operation of the team endpoints.
#[derive(Clone, Copy, Debug, PartialEq, Eq)]
pub enum TeamOperation {
    FetchTeams,
    FetchTeam,
    CreateTeam,
    UpdateTeam,
    DeleteTeam,
    AddMember,
    ListMembers,
    UpdateMemberRole,
    RemoveMember,
}

/// What a failed operation answers, given the database's error text and the team concerned.
pub fn team_failure(op: TeamOperation, error_text: &str, team_id: i32) -> (r: TeamError)
    ensures
        op == TeamOperation::FetchTeams ==> (r matches TeamError::CannotCreate(m) && m@ == "Failed to fetch teams: "@ + error_text@),
        op == TeamOperation::FetchTeam ==> (r matches TeamError::CannotCreate(m) && m@ == "Failed to fetch team: "@ + error_text@),
        op == TeamOperation::CreateTeam ==> (r matches TeamError::CannotCreate(m) && m@ == "Failed to create team: "@ + error_text@),
        op == TeamOperation::UpdateTeam ==> (r matches TeamError::CannotUpdate(m) && m@ == "Failed to update team: "@ + error_text@),
        op == TeamOperation::DeleteTeam ==> (r matches TeamError::CannotDelete(m) && m@ == "Failed to delete team: "@ + error_text@),
        op == TeamOperation::AddMember ==> (r matches TeamError::CannotCreate(m) && m@ == "Failed to add member to team: "@ + error_text@),
        op == TeamOperation::ListMembers ==> r == TeamError::NotFound(team_id),
        op == TeamOperation::UpdateMemberRole ==> (r matches TeamError::CannotUpdate(m) && m@ == "Failed to update member role: "@ + error_text@),
        op == TeamOperation::RemoveMember ==> (r matches TeamError::CannotDelete(m) && m@ == "Failed to remove member from team: "@ + error_text@),
{
    match op {
        TeamOperation::FetchTeams => TeamError::CannotCreate(concat2("Failed to fetch teams: ", error_text)),
        TeamOperation::FetchTeam => TeamError::CannotCreate(concat2("Failed to fetch team: ", error_text)),
        TeamOperation::CreateTeam => TeamError::CannotCreate(concat2("Failed to create team: ", error_text)),
        TeamOperation::UpdateTeam => TeamError::CannotUpdate(concat2("Failed to update team: ", error_text)),
        TeamOperation::DeleteTeam => TeamError::CannotDelete(concat2("Failed to delete team: ", error_text)),
        TeamOperation::AddMember => TeamError::CannotCreate(concat2("Failed to add member to team: ", error_text)),
        TeamOperation::ListMembers => TeamError::NotFound(team_id),
        TeamOperation::UpdateMemberRole => TeamError::CannotUpdate(concat2("Failed to update member role: ", error_text)),
        TeamOperation::RemoveMember => TeamError::CannotDelete(
            concat2("Failed to remove member from team: ", error_text),
        ),
    }
}

/// The membership to store when a payload adds a member to a team.
pub fn new_membership(team_id: i32, payload: NewTeamMembershipPayload) -> (m: NewTeamMembership)
    ensures
        m == (NewTeamMembership { team_id, user_id: payload.user_id, role: payload.role }),
{
    NewTeamMembership { team_id, user_id: payload.user_id, role: payload.role }
}

} // verus!

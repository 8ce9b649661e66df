//! How the role rows stored for a user become the roles the authorization rule reads.
use vstd::prelude::*;
use super::models::{KudosRole, RoleView, role_of_id, roles_view};

verus! {

/// The role a row grants when it is not a maintainer role.
pub open spec fn plain_role_of_row(row: (i32, Option<i32>)) -> Option<RoleView> {
    match role_of_id(row.0) {
        Some(RoleView::MaintainerWithProjects(_)) => None,
        Some(r) => Some(r),
        None => None,
    }
}

/// The project a row makes the user a maintainer of, if it is a maintainer row with a project.
pub open spec fn maintained_project_of_row(row: (i32, Option<i32>)) -> Option<i32> {
    match role_of_id(row.0) {
        Some(RoleView::MaintainerWithProjects(_)) => row.1,
        _ => None,
    }
}

/// The roles of the rows that are neither maintainer rows nor rows of an unknown role id,
/// in row order.
pub open spec fn plain_roles(rows: Seq<(i32, Option<i32>)>) -> Seq<RoleView> {
    rows.filter_map(|row: (i32, Option<i32>)| plain_role_of_row(row))
}

/// The projects of the maintainer rows that name one, in row order.
pub open spec fn maintained_projects(rows: Seq<(i32, Option<i32>)>) -> Seq<i32> {
    rows.filter_map(|row: (i32, Option<i32>)| maintained_project_of_row(row))
}

/// The roles a user holds, given the `(role id, project id)` rows stored for the user: the
/// plain roles in row order, then one maintainer role gathering every maintained project,
/// present only when there is at least one such project.
pub open spec fn roles_from_rows(rows: Seq<(i32, Option<i32>)>) -> Seq<RoleView> {
    let projects = maintained_projects(rows);
    if projects.len() > 0 {
        plain_roles(rows).push(RoleView::MaintainerWithProjects(Some(projects)))
    } else {
        plain_roles(rows)
    }
}

/// Turns the `(role id, project id)` rows stored for a user into the user's roles.
pub fn user_roles_from_rows(rows: &Vec<(i32, Option<i32>)>) -> (roles: Vec<KudosRole>)
    ensures
        roles_view(roles@) == roles_from_rows(rows@),
{
    let mut roles: Vec<KudosRole> = Vec::new();
    let mut projects: Vec<i32> = Vec::new();
    let mut i: usize = 0;
    while i < rows.len()
        invariant
            i <= rows.len(),
            roles_view(roles@) == plain_roles(rows@.take(i as int)),
            projects@ == maintained_projects(rows@.take(i as int)),
        decreases rows.len() - i,
    {
        let (role_id, project_id) = rows[i];
        let ghost row = rows@[i as int];
        let ghost prefix = rows@.take(i as int);
        assert(rows@.take(i + 1).drop_last() =~= prefix);
        assert(rows@.take(i + 1).last() == row);
        let ghost old_roles = roles@;
        match KudosRole::from_int(role_id) {
            Some(KudosRole::MaintainerWithProjects(_)) => {
                match project_id {
                    Some(p) => {
                        projects.push(p);
                    },
                    None => {},
                }
            },
            Some(role) => {
                roles.push(role);
                assert(roles@ =~= old_roles.push(role));
                assert(roles_view(roles@) =~= roles_view(old_roles).push(role@));
            },
            None => {},
        }
        i = i + 1;
    }
    assert(rows@.take(rows.len() as int) =~= rows@);
    if projects.len() > 0 {
        let ghost old_roles = roles@;
        let ghost ps = projects@;
        roles.push(KudosRole::MaintainerWithProjects(Some(projects)));
        assert(roles_view(roles@) =~= roles_view(old_roles).push(RoleView::MaintainerWithProjects(Some(ps))));
    }
    roles
}

} // verus!

//! Roles of the platform, as the authorization rules see them.
use vstd::prelude::*;
use crate::text::{concat3, i32_to_string, int_to_decimal, join_strings, seq_join};

verus! {

/// Database id of the admin role.
pub const ADMIN_ROLE_ID: i32 = 1;
/// Database id of the contributor role.
pub const CONTRIBUTOR_ROLE_ID: i32 = 2;
/// Database id of the maintainer role.
pub const MAINTAINER_ROLE_ID: i32 = 3;
/// Database id of the ecosystem architect role.
pub const ECOSYSTEM_ARCHITECT_ROLE_ID: i32 = 4;

/// A role as stored. Times are microseconds since the Unix epoch (UTC).
#[derive(Clone, Debug, PartialEq, Eq)]
pub struct Role {
    pub id: i32,
    pub name: String,
    pub created_at: i64,
    pub updated_at: Option<i64>,
}

/// The payload that creates a role.
#[derive(Clone, Debug, PartialEq, Eq)]
pub struct NewRole {
    pub name: String,
}

/// The payload that renames a role.
#[derive(Clone, Debug, PartialEq, Eq)]
pub struct UpdateRole {
    pub name: String,
}

/// A role as the API returns it.
#[derive(Clone, Debug, PartialEq, Eq)]
pub struct RoleResponse {
    pub id: i32,
    pub name: String,
    pub created_at: i64,
    pub updated_at: Option<i64>,
}

/// A role given to a user for a project, as stored.
#[derive(Clone, Debug, PartialEq, Eq)]
pub struct UserProjectRole {
    pub id: i32,
    pub user_id: i32,
    pub project_id: i32,
    pub role_id: i32,
    pub created_at: i64,
}

/// The payload that gives a user a role for a project.
#[derive(Clone, Debug, PartialEq, Eq)]
pub struct NewUserProjectRole {
    pub user_id: i32,
    pub project_id: i32,
    pub role_id: i32,
}

/// The payload that changes a role given to a user for a project.
#[derive(Clone, Debug, PartialEq, Eq)]
pub struct UpdateUserProjectRole {
    pub user_id: i32,
    pub project_id: i32,
    pub role_id: i32,
}

/// A role given to a user for a project, as the API returns it.
#[derive(Clone, Debug, PartialEq, Eq)]
pub struct UserProjectRoleResponse {
    pub user_id: i32,
    pub project_id: i32,
    pub role_id: i32,
}

/// A role a user holds, or a role an action asks for.
///
/// `MaintainerWithProjects(Some(ids))` is a maintainer of the projects `ids`;
/// `MaintainerWithProjects(None)` (as a requirement) asks for a maintainer of any project.
#[derive(Clone, Debug, PartialEq, Eq)]
pub enum KudosRole {
    Admin,
    Contributor,
    MaintainerWithProjects(Option<Vec<i32>>),
    EcosystemArchitect,
}

/// The mathematical value of a role: the project ids of a maintainer as a sequence.
pub enum RoleView {
    Admin,
    Contributor,
    MaintainerWithProjects(Option<Seq<i32>>),
    EcosystemArchitect,
}

impl View for KudosRole {
    type V = RoleView;

    open spec fn view(&self) -> RoleView {
        match self {
            KudosRole::Admin => RoleView::Admin,
            KudosRole::Contributor => RoleView::Contributor,
            KudosRole::MaintainerWithProjects(None) => RoleView::MaintainerWithProjects(None),
            KudosRole::MaintainerWithProjects(Some(ids)) => RoleView::MaintainerWithProjects(Some(ids@)),
            KudosRole::EcosystemArchitect => RoleView::EcosystemArchitect,
        }
    }
}

/// The roles of a list, by value.
pub open spec fn roles_view(roles: Seq<KudosRole>) -> Seq<RoleView> {
    roles.map_values(|r: KudosRole| r@)
}

/// The role an optional role stands for, by value.
pub open spec fn opt_role_view(r: Option<KudosRole>) -> Option<RoleView> {
    match r {
        Some(x) => Some(x@),
        None => None,
    }
}

/// The role a database role id stands for, if any.
pub open spec fn role_of_id(id: i32) -> Option<RoleView> {
    if id == ADMIN_ROLE_ID {
        Some(RoleView::Admin)
    } else if id == CONTRIBUTOR_ROLE_ID {
        Some(RoleView::Contributor)
    } else if id == MAINTAINER_ROLE_ID {
        Some(RoleView::MaintainerWithProjects(None))
    } else if id == ECOSYSTEM_ARCHITECT_ROLE_ID {
        Some(RoleView::EcosystemArchitect)
    } else {
        None
    }
}

/// Rust's debug form of a list of integers: `[1, 2, 3]`.
pub open spec fn int_list_text(v: Seq<i32>) -> Seq<char> {
    "["@ + seq_join(v.map_values(|x: i32| int_to_decimal(x as int)), ", "@) + "]"@
}

/// The debug form of a role, as `format!("{:?}", role)` writes it.
pub open spec fn role_text(r: RoleView) -> Seq<char> {
    match r {
        RoleView::Admin => "Admin"@,
        RoleView::Contributor => "Contributor"@,
        RoleView::MaintainerWithProjects(None) => "MaintainerWithProjects(None)"@,
        RoleView::MaintainerWithProjects(Some(ids)) =>
            "MaintainerWithProjects(Some("@ + int_list_text(ids) + "))"@,
        RoleView::EcosystemArchitect => "EcosystemArchitect"@,
    }
}

/// Writes a list of integers as `[1, 2, 3]`.
pub fn int_list_to_string(v: &Vec<i32>) -> (s: String)
    ensures
        s@ == int_list_text(v@),
{
    let mut parts: Vec<String> = Vec::new();
    let mut i: usize = 0;
    while i < v.len()
        invariant
            i <= v.len(),
            parts.deep_view() == v@.take(i as int).map_values(|x: i32| int_to_decimal(x as int)),
        decreases v.len() - i,
    {
        let t = i32_to_string(v[i]);
        let ghost before = parts.deep_view();
        parts.push(t);
        assert(parts.deep_view() =~= before.push(int_to_decimal(v@[i as int] as int)));
        assert(v@.take(i + 1).map_values(|x: i32| int_to_decimal(x as int))
            =~= v@.take(i as int).map_values(|x: i32| int_to_decimal(x as int)).push(
            int_to_decimal(v@[i as int] as int)));
        i = i + 1;
    }
    assert(v@.take(v.len() as int) =~= v@);
    let joined = join_strings(&parts, ", ");
    concat3("[", joined.as_str(), "]")
}

impl KudosRole {
    /// The role a database role id stands for; `None` for ids of no known role.
    pub fn from_int(id: i32) -> (r: Option<KudosRole>)
        ensures
            opt_role_view(r) == role_of_id(id),
    {
        if id == ADMIN_ROLE_ID {
            Some(KudosRole::Admin)
        } else if id == CONTRIBUTOR_ROLE_ID {
            Some(KudosRole::Contributor)
        } else if id == MAINTAINER_ROLE_ID {
            Some(KudosRole::MaintainerWithProjects(None))
        } else if id == ECOSYSTEM_ARCHITECT_ROLE_ID {
            Some(KudosRole::EcosystemArchitect)
        } else {
            None
        }
    }

    /// The debug form of the role, as `format!("{:?}", role)` writes it.
    pub fn debug_string(&self) -> (s: String)
        ensures
            s@ == role_text(self@),
    {
        match self {
            KudosRole::Admin => "Admin".to_owned(),
            KudosRole::Contributor => "Contributor".to_owned(),
            KudosRole::MaintainerWithProjects(None) => "MaintainerWithProjects(None)".to_owned(),
            KudosRole::MaintainerWithProjects(Some(ids)) => {
                let list = int_list_to_string(ids);
                concat3("MaintainerWithProjects(Some(", list.as_str(), "))")
            },
            KudosRole::EcosystemArchitect => "EcosystemArchitect".to_owned(),
        }
    }

    /// A copy of the role.
    pub fn duplicate(&self) -> (r: KudosRole)
        ensures
            r@ == self@,
    {
        match self {
            KudosRole::Admin => KudosRole::Admin,
            KudosRole::Contributor => KudosRole::Contributor,
            KudosRole::MaintainerWithProjects(None) => KudosRole::MaintainerWithProjects(None),
            KudosRole::MaintainerWithProjects(Some(ids)) => {
                let copy = ids.clone();
                assert(copy@ =~= ids@);
                KudosRole::MaintainerWithProjects(Some(copy))
            },
            KudosRole::EcosystemArchitect => KudosRole::EcosystemArchitect,
        }
    }
}

} // verus!

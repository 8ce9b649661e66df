use kudos_api::api::roles::db::user_roles_from_rows;
use kudos_api::api::roles::errors::RoleError;
use kudos_api::api::roles::handlers::{assignation_checks, assignation_failure, authorize_role_management};
use kudos_api::api::roles::models::KudosRole;
use kudos_api::api::roles::utils::user_has_at_least_one_role;

fn maintainer(ids: &[i32]) -> KudosRole {
    KudosRole::MaintainerWithProjects(Some(ids.to_vec()))
}

#[test]
fn user_with_a_required_role_is_admitted() {
    let r = user_has_at_least_one_role(vec![KudosRole::Contributor], vec![KudosRole::Admin, KudosRole::Contributor]);
    assert_eq!(r, Ok(()));
}

#[test]
fn refusal_lists_every_required_role() {
    let r = user_has_at_least_one_role(
        vec![KudosRole::Contributor],
        vec![KudosRole::Admin, maintainer(&[3, 4]), KudosRole::EcosystemArchitect],
    );
    assert_eq!(
        r,
        Err(RoleError::MissingRole(
            "Admin, MaintainerWithProjects(Some([3, 4])), EcosystemArchitect".to_string()
        ))
    );
}

#[test]
fn refusal_text_for_any_maintainer() {
    let r = user_has_at_least_one_role(vec![], vec![KudosRole::MaintainerWithProjects(None)]);
    assert_eq!(r, Err(RoleError::MissingRole("MaintainerWithProjects(None)".to_string())));
}

#[test]
fn maintainer_of_a_listed_project_is_admitted() {
    let r = user_has_at_least_one_role(vec![maintainer(&[1, 7])], vec![maintainer(&[9, 7])]);
    assert_eq!(r, Ok(()));
}

#[test]
fn maintainer_of_other_projects_is_refused() {
    let r = user_has_at_least_one_role(vec![maintainer(&[1, 2])], vec![maintainer(&[9])]);
    assert!(r.is_err());
}

#[test]
fn any_maintainer_requirement_needs_a_project() {
    assert_eq!(user_has_at_least_one_role(vec![maintainer(&[5])], vec![KudosRole::MaintainerWithProjects(None)]), Ok(()));
    assert!(user_has_at_least_one_role(
        vec![KudosRole::MaintainerWithProjects(None)],
        vec![KudosRole::MaintainerWithProjects(None)]
    )
    .is_err());
}

#[test]
fn more_roles_keep_access() {
    let required = vec![KudosRole::Admin, KudosRole::Contributor];
    assert_eq!(user_has_at_least_one_role(vec![KudosRole::Contributor], required.clone()), Ok(()));
    assert_eq!(
        user_has_at_least_one_role(vec![KudosRole::EcosystemArchitect, KudosRole::Contributor], required),
        Ok(())
    );
}

#[test]
fn role_order_does_not_matter() {
    let required = vec![KudosRole::EcosystemArchitect];
    let a = user_has_at_least_one_role(vec![KudosRole::Admin, KudosRole::EcosystemArchitect], required.clone());
    let b = user_has_at_least_one_role(vec![KudosRole::EcosystemArchitect, KudosRole::Admin, KudosRole::Admin], required);
    assert_eq!(a, b);
    assert_eq!(a, Ok(()));
}

#[test]
fn admin_is_admitted_where_listed() {
    assert_eq!(user_has_at_least_one_role(vec![KudosRole::Admin], vec![KudosRole::Contributor, KudosRole::Admin]), Ok(()));
}

#[test]
fn no_required_role_refuses_everyone() {
    assert_eq!(
        user_has_at_least_one_role(vec![KudosRole::Admin], vec![]),
        Err(RoleError::MissingRole(String::new()))
    );
}

#[test]
fn rows_become_roles() {
    let rows = vec![(2, None), (3, Some(10)), (99, Some(1)), (1, Some(5)), (3, None), (3, Some(11)), (4, None)];
    let roles = user_roles_from_rows(&rows);
    assert_eq!(
        roles,
        vec![KudosRole::Contributor, KudosRole::Admin, KudosRole::EcosystemArchitect, maintainer(&[10, 11])]
    );
}

#[test]
fn maintainer_rows_without_projects_give_no_role() {
    let roles = user_roles_from_rows(&vec![(3, None), (2, Some(4))]);
    assert_eq!(roles, vec![KudosRole::Contributor]);
}

#[test]
fn from_int_knows_the_role_ids() {
    assert_eq!(KudosRole::from_int(1), Some(KudosRole::Admin));
    assert_eq!(KudosRole::from_int(2), Some(KudosRole::Contributor));
    assert_eq!(KudosRole::from_int(3), Some(KudosRole::MaintainerWithProjects(None)));
    assert_eq!(KudosRole::from_int(4), Some(KudosRole::EcosystemArchitect));
    assert_eq!(KudosRole::from_int(0), None);
}

#[test]
fn debug_string_matches_debug_format() {
    for role in [KudosRole::Admin, maintainer(&[-3, 0, 12]), maintainer(&[]), KudosRole::MaintainerWithProjects(None)] {
        assert_eq!(role.debug_string(), format!("{:?}", role));
    }
}

#[test]
fn only_admins_manage_roles() {
    assert_eq!(authorize_role_management(vec![KudosRole::Admin]), Ok(()));
    assert_eq!(
        authorize_role_management(vec![KudosRole::Contributor]),
        Err(RoleError::MissingRole("Admin".to_string()))
    );
}

#[test]
fn assignation_checks_user_then_role() {
    assert_eq!(assignation_checks(false, false, 5, 6), Err(RoleError::UserNotFound(5)));
    assert_eq!(assignation_checks(true, false, 5, 6), Err(RoleError::RoleNotFound(6)));
    assert_eq!(assignation_checks(true, true, 5, 6), Ok(()));
}

#[test]
fn assignation_failure_detects_duplicates() {
    assert_eq!(
        assignation_failure("duplicate key value violates unique constraint \"unique_user_project_role\""),
        RoleError::AssignationAlreadyExists()
    );
    assert_eq!(assignation_failure("connection lost"), RoleError::CannotCreate("error creating assignation".to_string()));
}

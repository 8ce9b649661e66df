//! The authorization rule: does a user hold one of the roles an action asks for.
use vstd::prelude::*;
use super::errors::RoleError;
use super::models::{KudosRole, RoleView, role_text, roles_view};
use crate::text::{join_strings, seq_join};

verus! {

/// Some project of `wanted` is among `owned`.
pub open spec fn shares_project(wanted: Seq<i32>, owned: Seq<i32>) -> bool {
    exists|j: int| 0 <= j < wanted.len() && owned.contains(#[trigger] wanted[j])
}

/// A role the user holds grants a role an action asks for.
///
/// A maintainer requirement without projects is granted by a maintainer of any project;
/// one with projects by a maintainer of at least one of them; every other role only by itself.
pub open spec fn role_grants(held: RoleView, required: RoleView) -> bool {
    match required {
        RoleView::MaintainerWithProjects(None) => held matches RoleView::MaintainerWithProjects(Some(_)),
        RoleView::MaintainerWithProjects(Some(wanted)) => match held {
            RoleView::MaintainerWithProjects(Some(owned)) => shares_project(wanted, owned),
            _ => false,
        },
        _ => held == required,
    }
}

/// One of the user's roles grants `required`.
pub open spec fn role_satisfied(user_roles: Seq<RoleView>, required: RoleView) -> bool {
    exists|i: int| 0 <= i < user_roles.len() && role_grants(#[trigger] user_roles[i], required)
}

/// At least one of the required roles is granted by the user's roles.
pub open spec fn has_at_least_one_role(user_roles: Seq<RoleView>, required: Seq<RoleView>) -> bool {
    exists|j: int| 0 <= j < required.len() && role_satisfied(user_roles, #[trigger] required[j])
}

/// The debug texts of the required roles that the user's roles do not grant, in order.
pub open spec fn missing_role_texts(user_roles: Seq<RoleView>, required: Seq<RoleView>) -> Seq<Seq<char>> {
    required.filter_map(
        |r: RoleView| if role_satisfied(user_roles, r) { None } else { Some(role_text(r)) },
    )
}

/// The text of a refusal: the missing roles, separated by `", "`.
pub open spec fn missing_roles_text(user_roles: Seq<RoleView>, required: Seq<RoleView>) -> Seq<char> {
    seq_join(missing_role_texts(user_roles, required), ", "@)
}

fn contains_i32(v: &Vec<i32>, x: i32) -> (r: bool)
    ensures
        r == v@.contains(x),
{
    let mut i: usize = 0;
    while i < v.len()
        invariant
            i <= v.len(),
            forall|k: int| 0 <= k < i ==> v@[k] != x,
        decreases v.len() - i,
    {
        if v[i] == x {
            assert(v@[i as int] == x);
            return true;
        }
        i = i + 1;
    }
    false
}

fn shares_a_project(wanted: &Vec<i32>, owned: &Vec<i32>) -> (r: bool)
    ensures
        r == shares_project(wanted@, owned@),
{
    let mut j: usize = 0;
    while j < wanted.len()
        invariant
            j <= wanted.len(),
            forall|k: int| 0 <= k < j ==> !owned@.contains(#[trigger] wanted@[k]),
        decreases wanted.len() - j,
    {
        if contains_i32(owned, wanted[j]) {
            return true;
        }
        j = j + 1;
    }
    false
}

/// Whether the held role grants the required one.
pub fn grants(held: &KudosRole, required: &KudosRole) -> (r: bool)
    ensures
        r == role_grants(held@, required@),
{
    match required {
        KudosRole::MaintainerWithProjects(None) => match held {
            KudosRole::MaintainerWithProjects(Some(_)) => true,
            _ => false,
        },
        KudosRole::MaintainerWithProjects(Some(wanted)) => match held {
            KudosRole::MaintainerWithProjects(Some(owned)) => shares_a_project(wanted, owned),
            _ => false,
        },
        KudosRole::Admin => match held {
            KudosRole::Admin => true,
            _ => false,
        },
        KudosRole::Contributor => match held {
            KudosRole::Contributor => true,
            _ => false,
        },
        KudosRole::EcosystemArchitect => match held {
            KudosRole::EcosystemArchitect => true,
            _ => false,
        },
    }
}

/// Whether one of the user's roles grants the required one.
pub fn is_satisfied(user_roles: &Vec<KudosRole>, required: &KudosRole) -> (r: bool)
    ensures
        r == role_satisfied(roles_view(user_roles@), required@),
{
    let ghost uv = roles_view(user_roles@);
    let mut i: usize = 0;
    while i < user_roles.len()
        invariant
            i <= user_roles.len(),
            uv == roles_view(user_roles@),
            forall|k: int| 0 <= k < i ==> !role_grants(#[trigger] uv[k], required@),
        decreases user_roles.len() - i,
    {
        if grants(&user_roles[i], required) {
            assert(uv[i as int] == user_roles@[i as int]@);
            return true;
        }
        i = i + 1;
    }
    false
}

/// Accepts when the user holds at least one of the required roles; otherwise refuses with
/// `MissingRole`, naming the required roles the user lacks (in their debug form, separated by
/// `", "`).
pub fn user_has_at_least_one_role(user_roles: Vec<KudosRole>, required_roles: Vec<KudosRole>) -> (r:
    Result<(), RoleError>)
    ensures
        r is Ok <==> has_at_least_one_role(roles_view(user_roles@), roles_view(required_roles@)),
        r is Err ==> (r matches Err(RoleError::MissingRole(m)) && m@ == missing_roles_text(
            roles_view(user_roles@),
            roles_view(required_roles@),
        )),
{
    let ghost uv = roles_view(user_roles@);
    let ghost rv = roles_view(required_roles@);
    let mut texts: Vec<String> = Vec::new();
    let mut any = false;
    let mut j: usize = 0;
    while j < required_roles.len()
        invariant
            j <= required_roles.len(),
            uv == roles_view(user_roles@),
            rv == roles_view(required_roles@),
            any <==> exists|k: int| 0 <= k < j && role_satisfied(uv, #[trigger] rv[k]),
            texts.deep_view() == missing_role_texts(uv, rv.take(j as int)),
        decreases required_roles.len() - j,
    {
        let ok = is_satisfied(&user_roles, &required_roles[j]);
        let ghost before = texts.deep_view();
        assert(rv[j as int] == required_roles@[j as int]@);
        if ok {
            any = true;
        } else {
            let t = required_roles[j].debug_string();
            texts.push(t);
            assert(texts.deep_view() =~= before.push(role_text(rv[j as int])));
        }
        assert(rv.take(j + 1).drop_last() =~= rv.take(j as int));
        assert(rv.take(j + 1).last() == rv[j as int]);
        j = j + 1;
    }
    assert(rv.take(required_roles.len() as int) =~= rv);
    if any {
        Ok(())
    } else {
        let joined = join_strings(&texts, ", ");
        Err(RoleError::MissingRole(joined))
    }
}

} // verus!

verus! {

/// A user who is granted an action keeps it when given more roles: the answer depends only on
/// which roles the user holds, and more roles can only grant more.
pub proof fn lemma_more_roles_keep_access(
    user_roles: Seq<RoleView>,
    more_roles: Seq<RoleView>,
    required: Seq<RoleView>,
)
    requires
        forall|i: int| 0 <= i < user_roles.len() ==> more_roles.contains(#[trigger] user_roles[i]),
        has_at_least_one_role(user_roles, required),
    ensures
        has_at_least_one_role(more_roles, required),
{
    let j = choose|j: int| 0 <= j < required.len() && role_satisfied(user_roles, #[trigger] required[j]);
    let i = choose|i: int| 0 <= i < user_roles.len() && role_grants(#[trigger] user_roles[i], required[j]);
    assert(more_roles.contains(user_roles[i]));
    let k = choose|k: int| 0 <= k < more_roles.len() && more_roles[k] == user_roles[i];
    assert(role_grants(more_roles[k], required[j]));
    assert(role_satisfied(more_roles, required[j]));
}

/// The order and repetition of the user's roles do not matter: two lists that hold the same
/// roles get the same answer.
pub proof fn lemma_same_roles_same_answer(
    roles_a: Seq<RoleView>,
    roles_b: Seq<RoleView>,
    required: Seq<RoleView>,
)
    requires
        forall|r: RoleView| roles_a.contains(r) <==> roles_b.contains(r),
    ensures
        has_at_least_one_role(roles_a, required) == has_at_least_one_role(roles_b, required),
{
    assert forall|i: int| 0 <= i < roles_a.len() implies roles_b.contains(#[trigger] roles_a[i]) by {
        assert(roles_a.contains(roles_a[i]));
    }
    assert forall|i: int| 0 <= i < roles_b.len() implies roles_a.contains(#[trigger] roles_b[i]) by {
        assert(roles_b.contains(roles_b[i]));
    }
    if has_at_least_one_role(roles_a, required) {
        lemma_more_roles_keep_access(roles_a, roles_b, required);
    }
    if has_at_least_one_role(roles_b, required) {
        lemma_more_roles_keep_access(roles_b, roles_a, required);
    }
}

/// Admitting more roles never shuts anyone out: a user granted an action that asks for some
/// roles is granted any action that asks for at least those roles.
pub proof fn lemma_more_admitted_roles_keep_access(
    user_roles: Seq<RoleView>,
    required: Seq<RoleView>,
    more_required: Seq<RoleView>,
)
    requires
        forall|j: int| 0 <= j < required.len() ==> more_required.contains(#[trigger] required[j]),
        has_at_least_one_role(user_roles, required),
    ensures
        has_at_least_one_role(user_roles, more_required),
{
    let j = choose|j: int| 0 <= j < required.len() && role_satisfied(user_roles, #[trigger] required[j]);
    assert(more_required.contains(required[j]));
    let k = choose|k: int| 0 <= k < more_required.len() && more_required[k] == required[j];
    assert(role_satisfied(user_roles, more_required[k]));
}

/// An admin is granted every action that admits admins.
pub proof fn lemma_admin_is_admitted_where_listed(user_roles: Seq<RoleView>, required: Seq<RoleView>)
    requires
        user_roles.contains(RoleView::Admin),
        required.contains(RoleView::Admin),
    ensures
        has_at_least_one_role(user_roles, required),
{
    let i = choose|i: int| 0 <= i < user_roles.len() && user_roles[i] == RoleView::Admin;
    let j = choose|j: int| 0 <= j < required.len() && required[j] == RoleView::Admin;
    assert(role_grants(user_roles[i], required[j]));
    assert(role_satisfied(user_roles, required[j]));
}

/// An action that asks for no role is refused to everyone.
pub proof fn lemma_no_required_role_refuses(user_roles: Seq<RoleView>)
    ensures
        !has_at_least_one_role(user_roles, Seq::<RoleView>::empty()),
{
}

/// A refusal names every role the action asks for, in the order asked: when no required role is
/// granted, all of them are missing.
pub proof fn lemma_refusal_names_every_required_role(user_roles: Seq<RoleView>, required: Seq<RoleView>)
    requires
        !has_at_least_one_role(user_roles, required),
    ensures
        missing_role_texts(user_roles, required) == required.map_values(|r: RoleView| role_text(r)),
    decreases required.len(),
{
    if required.len() == 0 {
        assert(missing_role_texts(user_roles, required) =~= Seq::<Seq<char>>::empty());
        assert(required.map_values(|r: RoleView| role_text(r)) =~= Seq::<Seq<char>>::empty());
    } else {
        let rest = required.drop_last();
        assert forall|j: int| 0 <= j < rest.len() implies !role_satisfied(user_roles, #[trigger] rest[j]) by {
            assert(rest[j] == required[j]);
        }
        lemma_refusal_names_every_required_role(user_roles, rest);
        assert(!role_satisfied(user_roles, required[required.len() - 1]));
        assert(required.map_values(|r: RoleView| role_text(r)) =~= rest.map_values(
            |r: RoleView| role_text(r),
        ).push(role_text(required.last())));
        assert(missing_role_texts(user_roles, required) =~= missing_role_texts(user_roles, rest)
            + seq![role_text(required.last())]);
    }
}

} // verus!

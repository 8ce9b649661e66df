//! The decisions of the subscription endpoints: one subject per request, stored in lowercase,
//! and what a failed store or removal answers.
use vstd::prelude::*;
use super::errors::UserSubscriptionError;
use super::models::{
    DeleteUserSubscription, NewUserSubscription, SubscriptionDeletion, SubscriptionTarget,
    UserSubscription,
};
use crate::text::{
    concat2, has_substring, join_strings, lowercase_option, opt_lowercase, opt_text, seq_join,
    str_contains,
};

verus! {

/// The names of the subjects a request gives, in the order purpose, stack level, technology.
pub open spec fn given_field_names(purpose: bool, stack_level: bool, technology: bool) -> Seq<Seq<char>> {
    (if purpose { seq!["purpose"@] } else { Seq::empty() })
        + (if stack_level { seq!["stack level"@] } else { Seq::empty() })
        + (if technology { seq!["technology"@] } else { Seq::empty() })
}

/// The explanation given when a request names more than one subject.
pub open spec fn too_many_fields_text(names: Seq<Seq<char>>) -> Seq<char> {
    "only one field can be provided at a time, got: "@ + seq_join(names, ", "@)
}

fn given_fields(purpose: bool, stack_level: bool, technology: bool) -> (names: Vec<String>)
    ensures
        names.deep_view() == given_field_names(purpose, stack_level, technology),
{
    let mut names: Vec<String> = Vec::new();
    if purpose {
        names.push("purpose".to_owned());
    }
    if stack_level {
        names.push("stack level".to_owned());
    }
    if technology {
        names.push("technology".to_owned());
    }
    assert(names.deep_view() =~= given_field_names(purpose, stack_level, technology));
    names
}

fn check_one_field(purpose: bool, stack_level: bool, technology: bool) -> (r: Result<(), UserSubscriptionError>)
    ensures
        r is Ok <==> given_field_names(purpose, stack_level, technology).len() <= 1,
        r is Err ==> (r matches Err(UserSubscriptionError::InvalidPayload(m)) && m@ == too_many_fields_text(
            given_field_names(purpose, stack_level, technology),
        )),
{
    let names = given_fields(purpose, stack_level, technology);
    if names.len() > 1 {
        let listed = join_strings(&names, ", ");
        Err(UserSubscriptionError::InvalidPayload(
            concat2("only one field can be provided at a time, got: ", listed.as_str()),
        ))
    } else {
        Ok(())
    }
}

/// Accepts a new subscription that names at most one subject; refuses one that names more,
/// listing them.
pub fn validate_new_fields(subscription: &NewUserSubscription) -> (r: Result<(), UserSubscriptionError>)
    ensures
        r is Ok <==> given_field_names(
            subscription.purpose is Some,
            subscription.stack_level is Some,
            subscription.technology is Some,
        ).len() <= 1,
        r is Err ==> (r matches Err(UserSubscriptionError::InvalidPayload(m)) && m@ == too_many_fields_text(
            given_field_names(
                subscription.purpose is Some,
                subscription.stack_level is Some,
                subscription.technology is Some,
            ),
        )),
{
    check_one_field(
        subscription.purpose.is_some(),
        subscription.stack_level.is_some(),
        subscription.technology.is_some(),
    )
}

/// Accepts a subscription removal that names at most one subject; refuses one that names more,
/// listing them.
pub fn validate_delete_fields(subscription: &DeleteUserSubscription) -> (r: Result<(), UserSubscriptionError>)
    ensures
        r is Ok <==> given_field_names(
            subscription.purpose is Some,
            subscription.stack_level is Some,
            subscription.technology is Some,
        ).len() <= 1,
        r is Err ==> (r matches Err(UserSubscriptionError::InvalidPayload(m)) && m@ == too_many_fields_text(
            given_field_names(
                subscription.purpose is Some,
                subscription.stack_level is Some,
                subscription.technology is Some,
            ),
        )),
{
    check_one_field(
        subscription.purpose.is_some(),
        subscription.stack_level.is_some(),
        subscription.technology.is_some(),
    )
}

/// Lowercases the subjects of a new subscription.
pub fn normalize_new_subscription(subscription: &mut NewUserSubscription)
    ensures
        final(subscription).github_id == old(subscription).github_id,
        opt_text(final(subscription).purpose) == opt_lowercase(old(subscription).purpose),
        opt_text(final(subscription).stack_level) == opt_lowercase(old(subscription).stack_level),
        opt_text(final(subscription).technology) == opt_lowercase(old(subscription).technology),
{
    subscription.purpose = lowercase_option(&subscription.purpose);
    subscription.stack_level = lowercase_option(&subscription.stack_level);
    subscription.technology = lowercase_option(&subscription.technology);
}

/// Lowercases the subjects of a subscription removal.
pub fn normalize_delete_subscription(subscription: &mut DeleteUserSubscription)
    ensures
        final(subscription).github_id == old(subscription).github_id,
        opt_text(final(subscription).purpose) == opt_lowercase(old(subscription).purpose),
        opt_text(final(subscription).stack_level) == opt_lowercase(old(subscription).stack_level),
        opt_text(final(subscription).technology) == opt_lowercase(old(subscription).technology),
{
    subscription.purpose = lowercase_option(&subscription.purpose);
    subscription.stack_level = lowercase_option(&subscription.stack_level);
    subscription.technology = lowercase_option(&subscription.technology);
}

/// Readies a new subscription of the given GitHub user for storage: at most one subject,
/// lowercased, and owned by that user.
pub fn prepare_new_subscription(subscription: NewUserSubscription, github_id: i64) -> (r: Result<
    NewUserSubscription,
    UserSubscriptionError,
>)
    ensures
        r is Ok <==> given_field_names(
            subscription.purpose is Some,
            subscription.stack_level is Some,
            subscription.technology is Some,
        ).len() <= 1,
        r is Err ==> (r matches Err(UserSubscriptionError::InvalidPayload(m)) && m@ == too_many_fields_text(
            given_field_names(
                subscription.purpose is Some,
                subscription.stack_level is Some,
                subscription.technology is Some,
            ),
        )),
        r matches Ok(s) ==> {
            &&& s.github_id == Some(github_id)
            &&& opt_text(s.purpose) == opt_lowercase(subscription.purpose)
            &&& opt_text(s.stack_level) == opt_lowercase(subscription.stack_level)
            &&& opt_text(s.technology) == opt_lowercase(subscription.technology)
        },
{
    let mut subscription = subscription;
    validate_new_fields(&subscription)?;
    normalize_new_subscription(&mut subscription);
    subscription.github_id = Some(github_id);
    Ok(subscription)
}

/// Readies a subscription removal of the given GitHub user: at most one subject, lowercased,
/// and owned by that user.
pub fn prepare_delete_subscription(subscription: DeleteUserSubscription, github_id: i64) -> (r: Result<
    DeleteUserSubscription,
    UserSubscriptionError,
>)
    ensures
        r is Ok <==> given_field_names(
            subscription.purpose is Some,
            subscription.stack_level is Some,
            subscription.technology is Some,
        ).len() <= 1,
        r is Err ==> (r matches Err(UserSubscriptionError::InvalidPayload(m)) && m@ == too_many_fields_text(
            given_field_names(
                subscription.purpose is Some,
                subscription.stack_level is Some,
                subscription.technology is Some,
            ),
        )),
        r matches Ok(s) ==> {
            &&& s.github_id == Some(github_id)
            &&& opt_text(s.purpose) == opt_lowercase(subscription.purpose)
            &&& opt_text(s.stack_level) == opt_lowercase(subscription.stack_level)
            &&& opt_text(s.technology) == opt_lowercase(subscription.technology)
        },
{
    let mut subscription = subscription;
    validate_delete_fields(&subscription)?;
    normalize_delete_subscription(&mut subscription);
    subscription.github_id = Some(github_id);
    Ok(subscription)
}

/// The database constraints that make a subscription unique per user and subject.
pub open spec fn is_duplicate_subscription_error(error_text: Seq<char>) -> bool {
    ||| has_substring(error_text, "user_subscriptions_github_id_purpose_key"@)
    ||| has_substring(error_text, "user_subscriptions_github_id_stack_level_key"@)
    ||| has_substring(error_text, "user_subscriptions_github_id_technology_key"@)
}

/// The answer to a subscription the database refused to store, given the database's error
/// text: a duplicate when a uniqueness constraint was broken (reported with the user's GitHub
/// id cut to 32 bits, 0 when absent), otherwise a generic failure.
pub fn subscription_creation_failure(error_text: &str, github_id: Option<i64>) -> (r: UserSubscriptionError)
    ensures
        is_duplicate_subscription_error(error_text@) ==> r == UserSubscriptionError::AlreadyExists(
            (match github_id {
                Some(g) => g,
                None => 0i64,
            }) as i32,
        ),
        !is_duplicate_subscription_error(error_text@) ==> (r matches UserSubscriptionError::CannotCreate(m)
            && m@ == "error creating the subscription"@),
{
    if str_contains(error_text, "user_subscriptions_github_id_purpose_key")
        || str_contains(error_text, "user_subscriptions_github_id_stack_level_key")
        || str_contains(error_text, "user_subscriptions_github_id_technology_key") {
        let g: i64 = match github_id {
            Some(g) => g,
            None => 0,
        };
        UserSubscriptionError::AlreadyExists(g as i32)
    } else {
        UserSubscriptionError::CannotCreate("error creating the subscription".to_owned())
    }
}

/// The answer to a subscription removal the database refused.
pub fn subscription_deletion_failure() -> (r: UserSubscriptionError)
    ensures
        r matches UserSubscriptionError::CannotDelete(m) && m@ == "error deleting the subscription"@,
{
    UserSubscriptionError::CannotDelete("error deleting the subscription".to_owned())
}

/// Which stored subscriptions a removal deletes: those of its GitHub user about its one subject.
/// `None` when the removal names no user, or not exactly one subject.
pub open spec fn deletion_of(s: DeleteUserSubscription) -> Option<SubscriptionDeletion> {
    match s.github_id {
        None => None,
        Some(g) => match (s.purpose, s.stack_level, s.technology) {
            (Some(p), None, None) => Some(SubscriptionDeletion { github_id: g, target: SubscriptionTarget::Purpose(p) }),
            (None, Some(l), None) => Some(SubscriptionDeletion { github_id: g, target: SubscriptionTarget::StackLevel(l) }),
            (None, None, Some(t)) => Some(SubscriptionDeletion { github_id: g, target: SubscriptionTarget::Technology(t) }),
            _ => None,
        },
    }
}

/// Which stored subscriptions a removal deletes.
pub fn subscription_deletion(s: DeleteUserSubscription) -> (r: Option<SubscriptionDeletion>)
    ensures
        r == deletion_of(s),
{
    match s.github_id {
        None => None,
        Some(g) => match (s.purpose, s.stack_level, s.technology) {
            (Some(p), None, None) => Some(SubscriptionDeletion { github_id: g, target: SubscriptionTarget::Purpose(p) }),
            (None, Some(l), None) => Some(SubscriptionDeletion { github_id: g, target: SubscriptionTarget::StackLevel(l) }),
            (None, None, Some(t)) => Some(SubscriptionDeletion { github_id: g, target: SubscriptionTarget::Technology(t) }),
            _ => None,
        },
    }
}

/// The subscriptions of a GitHub user as answered: refused as not found when there are none.
pub fn subscriptions_found(subscriptions: Vec<UserSubscription>, github_id: i64) -> (r: Result<
    Vec<UserSubscription>,
    UserSubscriptionError,
>)
    ensures
        subscriptions@.len() == 0 ==> r == Err::<Vec<UserSubscription>, UserSubscriptionError>(
            UserSubscriptionError::NotFoundByGithubUser(github_id),
        ),
        subscriptions@.len() > 0 ==> r == Ok::<Vec<UserSubscription>, UserSubscriptionError>(subscriptions),
{
    if subscriptions.len() == 0 {
        Err(UserSubscriptionError::NotFoundByGithubUser(github_id))
    } else {
        Ok(subscriptions)
    }
}

/// A removal readied for a GitHub user removes only that user's subscriptions: when it names a
/// subject, it deletes the user's subscriptions about that subject, in lowercase; when it names
/// none, it deletes nothing.
pub proof fn lemma_readied_removal_is_the_users_own(
    sent: DeleteUserSubscription,
    readied: DeleteUserSubscription,
    github_id: i64,
)
    requires
        given_field_names(sent.purpose is Some, sent.stack_level is Some, sent.technology is Some).len() <= 1,
        readied.github_id == Some(github_id),
        opt_text(readied.purpose) == opt_lowercase(sent.purpose),
        opt_text(readied.stack_level) == opt_lowercase(sent.stack_level),
        opt_text(readied.technology) == opt_lowercase(sent.technology),
    ensures
        deletion_of(readied) matches Some(d) ==> d.github_id == github_id,
        sent.purpose matches Some(p) ==> (deletion_of(readied) matches Some(d) && d.target matches SubscriptionTarget::Purpose(t)
            && t@ == crate::text::lowercase(p@)),
        sent.stack_level matches Some(l) ==> (deletion_of(readied) matches Some(d) && d.target matches SubscriptionTarget::StackLevel(t)
            && t@ == crate::text::lowercase(l@)),
        sent.technology matches Some(x) ==> (deletion_of(readied) matches Some(d) && d.target matches SubscriptionTarget::Technology(t)
            && t@ == crate::text::lowercase(x@)),
        sent.purpose is None && sent.stack_level is None && sent.technology is None ==> deletion_of(readied) is None,
{
}

} // verus!

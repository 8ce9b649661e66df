use kudos_api::api::subscriptions::errors::UserSubscriptionError;
use kudos_api::api::subscriptions::handlers::{
    normalize_new_subscription, prepare_delete_subscription, prepare_new_subscription, subscription_creation_failure,
    subscription_deletion, subscription_deletion_failure, subscriptions_found, validate_delete_fields,
    validate_new_fields,
};
use kudos_api::api::subscriptions::models::{
    DeleteUserSubscription, NewUserSubscription, SubscriptionDeletion, SubscriptionTarget, UserSubscription,
};

fn new_sub(p: Option<&str>, s: Option<&str>, t: Option<&str>) -> NewUserSubscription {
    NewUserSubscription {
        github_id: None,
        purpose: p.map(str::to_string),
        stack_level: s.map(str::to_string),
        technology: t.map(str::to_string),
    }
}

fn del_sub(g: Option<i64>, p: Option<&str>, s: Option<&str>, t: Option<&str>) -> DeleteUserSubscription {
    DeleteUserSubscription {
        github_id: g,
        purpose: p.map(str::to_string),
        stack_level: s.map(str::to_string),
        technology: t.map(str::to_string),
    }
}

#[test]
fn one_subject_at_a_time() {
    assert_eq!(validate_new_fields(&new_sub(None, None, None)), Ok(()));
    assert_eq!(validate_new_fields(&new_sub(Some("a"), None, None)), Ok(()));
    assert_eq!(
        validate_new_fields(&new_sub(Some("a"), None, Some("c"))),
        Err(UserSubscriptionError::InvalidPayload(
            "only one field can be provided at a time, got: purpose, technology".to_string()
        ))
    );
    assert_eq!(
        validate_delete_fields(&del_sub(None, Some("a"), Some("b"), Some("c"))),
        Err(UserSubscriptionError::InvalidPayload(
            "only one field can be provided at a time, got: purpose, stack level, technology".to_string()
        ))
    );
}

#[test]
fn subjects_are_lowercased() {
    let mut s = new_sub(Some("DeFi"), None, None);
    normalize_new_subscription(&mut s);
    assert_eq!(s.purpose, Some("defi".to_string()));
    assert_eq!(s.stack_level, None);
    let p = prepare_new_subscription(new_sub(None, Some("ÉCOLE"), None), 77).unwrap();
    assert_eq!(p.github_id, Some(77));
    assert_eq!(p.stack_level, Some("école".to_string()));
    let d = prepare_delete_subscription(del_sub(Some(1), None, None, Some("RUST")), 5).unwrap();
    assert_eq!(d.github_id, Some(5));
    assert_eq!(d.technology, Some("rust".to_string()));
}

#[test]
fn duplicate_subscriptions_are_reported() {
    assert_eq!(
        subscription_creation_failure("violates \"user_subscriptions_github_id_stack_level_key\"", Some(12)),
        UserSubscriptionError::AlreadyExists(12)
    );
    assert_eq!(
        subscription_creation_failure("user_subscriptions_github_id_purpose_key", Some(4294967297)),
        UserSubscriptionError::AlreadyExists(1)
    );
    assert_eq!(subscription_creation_failure("user_subscriptions_github_id_technology_key", None), UserSubscriptionError::AlreadyExists(0));
    assert_eq!(
        subscription_creation_failure("other", Some(1)),
        UserSubscriptionError::CannotCreate("error creating the subscription".to_string())
    );
    assert_eq!(
        subscription_deletion_failure(),
        UserSubscriptionError::CannotDelete("error deleting the subscription".to_string())
    );
}

#[test]
fn deletion_targets_exactly_one_subject() {
    assert_eq!(
        subscription_deletion(del_sub(Some(9), None, Some("backend"), None)),
        Some(SubscriptionDeletion { github_id: 9, target: SubscriptionTarget::StackLevel("backend".to_string()) })
    );
    assert_eq!(subscription_deletion(del_sub(None, Some("x"), None, None)), None);
    assert_eq!(subscription_deletion(del_sub(Some(9), None, None, None)), None);
    assert_eq!(subscription_deletion(del_sub(Some(9), Some("x"), Some("y"), None)), None);
}

#[test]
fn empty_subscription_list_is_not_found() {
    assert_eq!(subscriptions_found(vec![], 31), Err(UserSubscriptionError::NotFoundByGithubUser(31)));
    let s = UserSubscription { id: 1, github_id: 31, purpose: None, stack_level: None, technology: None, created_at: 0 };
    assert_eq!(subscriptions_found(vec![s.clone()], 31), Ok(vec![s]));
}

#[test]
fn readied_removal_targets_the_senders_own_subscriptions() {
    let readied = prepare_delete_subscription(del_sub(Some(99), None, Some("BackEnd"), None), 7).unwrap();
    assert_eq!(
        subscription_deletion(readied),
        Some(SubscriptionDeletion { github_id: 7, target: SubscriptionTarget::StackLevel("backend".to_string()) })
    );
    let readied = prepare_delete_subscription(del_sub(None, None, None, None), 7).unwrap();
    assert_eq!(subscription_deletion(readied), None);
}

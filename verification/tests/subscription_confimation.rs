use rust_email_newsletter::store::{ConfirmError, SubscriberStatus, SubscriberStore};

#[test]
fn confirmation_without_token_are_rejected() {
    let mut store = SubscriberStore::new();
    let r = store.confirm(None);
    assert_eq!(r, Err(ConfirmError::MissingToken));
    assert_eq!(400, ConfirmError::MissingToken.status_code());
}

#[test]
fn confirmation_wrong_token_are_rejected() {
    let mut store = SubscriberStore::new();
    store
        .subscribe(&"testName".to_string(), &"testEmail@gmail.com".to_string(), true)
        .unwrap();
    let wrong = "This must be wrong token".to_string();
    let r = store.confirm(Some(&wrong));
    assert_eq!(r, Err(ConfirmError::UnknownToken));
    assert_eq!(401, ConfirmError::UnknownToken.status_code());
    // no state changed: the one subscriber is still pending, the token row
    // is still there
    assert_eq!(1, store.subscriber_count());
    assert_eq!(1, store.token_count());
    assert_eq!(store.subscriber_at(0).status, SubscriberStatus::PendingConfirmation);
}

#[test]
fn subscribe_then_confirm_leaves_subscriber_confirmed() {
    let mut store = SubscriberStore::new();
    let token = store
        .subscribe(&"testName".to_string(), &"testEmail@gmail.com".to_string(), true)
        .unwrap();
    assert_eq!(store.subscriber_at(0).status, SubscriberStatus::PendingConfirmation);

    assert_eq!(Ok(()), store.confirm(Some(&token)));
    assert_eq!(store.subscriber_at(0).status, SubscriberStatus::Confirmed);
    assert_eq!(1, store.subscriber_count());

    // confirming twice succeeds both times and creates no duplicate state
    assert_eq!(Ok(()), store.confirm(Some(&token)));
    assert_eq!(store.subscriber_at(0).status, SubscriberStatus::Confirmed);
    assert_eq!(1, store.subscriber_count());
    assert_eq!(1, store.token_count());
}

#[test]
fn confirming_one_subscriber_leaves_the_others_alone() {
    let mut store = SubscriberStore::new();
    let _token_a = store
        .subscribe(&"A Name".to_string(), &"a@example.com".to_string(), true)
        .unwrap();
    let token_b = store
        .subscribe(&"B Name".to_string(), &"b@example.com".to_string(), true)
        .unwrap();
    assert_eq!(Ok(()), store.confirm(Some(&token_b)));
    assert_eq!(store.subscriber_at(0).status, SubscriberStatus::PendingConfirmation);
    assert_eq!(store.subscriber_at(1).status, SubscriberStatus::Confirmed);
}

#[test]
fn confirm_error_status_codes() {
    assert_eq!(400, ConfirmError::MissingToken.status_code());
    assert_eq!(401, ConfirmError::UnknownToken.status_code());
    assert_eq!(500, ConfirmError::StorageFailure.status_code());
}

use rust_email_newsletter::domain::{FormData, NewSubscriber, Subscriber};
use rust_email_newsletter::store::{begin_subscribe, SubscribeError, SubscriberStatus, SubscriberStore};

fn subscribe_status(store: &mut SubscriberStore, name: &str, email: &str) -> u16 {
    match store.subscribe(&name.to_string(), &email.to_string(), true) {
        Ok(_) => 200,
        Err(e) => e.status_code(),
    }
}

#[test]
fn subscriptions_check_form_data_valid() {
    let mut store = SubscriberStore::new();
    let token = store
        .subscribe(&"testName".to_string(), &"testEmail@gmail.com".to_string(), true)
        .expect("Failed to get response");

    let saved = store.subscriber_at(0);
    assert_eq!(saved.email.as_ref(), "testEmail@gmail.com");
    assert_eq!(saved.name.as_ref(), "testName");

    // the confirmation mail would carry exactly this link
    let link = rust_email_newsletter::email::get_confirmation_link("http://127.0.0.1", &token);
    assert_eq!(
        link.0,
        format!("http://127.0.0.1/subscriptions/confirm?subscription_token={}", token)
    );
}

#[test]
fn check_form_data_unvalid() {
    // the transport layer answers a missing field with an empty value; the
    // parsers must reject it before anything reaches storage
    for (name, email) in [("kither god", ""), ("", "kither_123@gmail.com"), ("", "")] {
        let mut store = SubscriberStore::new();
        assert_eq!(400, subscribe_status(&mut store, name, email));
        assert_eq!(0, store.subscriber_count());
    }
}

#[test]
fn check_form_present_but_unvalid() {
    for (name, email) in [
        ("", "kither_123@gmail.com"),
        ("sadfsdf", ""),
        ("sadfsdf", "dsrgerg"),
    ] {
        let mut store = SubscriberStore::new();
        assert_eq!(400, subscribe_status(&mut store, name, email));
        assert_eq!(0, store.subscriber_count());
        assert_eq!(0, store.token_count());
    }
}

#[test]
fn malformed_emails_leave_no_row() {
    // missing '@', empty local part, empty domain, no dot in domain, spaces
    for email in ["plainaddress", "@example.com", "user@", "user@localhost", "a b@example.com"] {
        let mut store = SubscriberStore::new();
        let r = store.subscribe(&"testName".to_string(), &email.to_string(), true);
        assert_eq!(r, Err(SubscribeError::ValidationError));
        assert_eq!(0, store.subscriber_count());
        assert_eq!(0, store.token_count());
    }
}

#[test]
fn name_bounds_and_forbidden_characters() {
    let email = "a@example.com".to_string();
    let just_long_enough = "x".repeat(256);
    let too_long = "x".repeat(257);
    let mut store = SubscriberStore::new();
    assert!(store.subscribe(&just_long_enough, &email, true).is_ok());
    assert_eq!(
        store.subscribe(&too_long, &email, true),
        Err(SubscribeError::ValidationError)
    );
    for bad in ["a/b", "a\\b", "a(b", "a)b", "a\"b", "a<b", "a>b", "a{b", "a}b", "a\tb"] {
        assert_eq!(
            store.subscribe(&bad.to_string(), &email, true),
            Err(SubscribeError::ValidationError)
        );
    }
    assert_eq!(1, store.subscriber_count());
}

#[test]
fn failed_send_rolls_the_transaction_back() {
    let mut store = SubscriberStore::new();
    let r = store.subscribe(&"testName".to_string(), &"testEmail@gmail.com".to_string(), false);
    assert_eq!(r, Err(SubscribeError::NotificationFailure));
    // neither the subscriber row nor the token row persists
    assert_eq!(0, store.subscriber_count());
    assert_eq!(0, store.token_count());
    // and a later attempt starts from a clean store
    assert!(store
        .subscribe(&"testName".to_string(), &"testEmail@gmail.com".to_string(), true)
        .is_ok());
    assert_eq!(1, store.subscriber_count());
    assert_eq!(1, store.token_count());
}

#[test]
fn new_subscribers_start_pending() {
    let mut store = SubscriberStore::new();
    store
        .subscribe(&"testName".to_string(), &"testEmail@gmail.com".to_string(), true)
        .unwrap();
    assert_eq!(store.subscriber_at(0).status, SubscriberStatus::PendingConfirmation);
}

#[test]
fn generated_tokens_are_long_alphanumeric_and_distinct() {
    let name = "testName".to_string();
    let email = "testEmail@gmail.com".to_string();
    let mut seen = std::collections::HashSet::new();
    for _ in 0..10_000 {
        let pending = begin_subscribe(&name, &email).expect("valid input must be accepted");
        let token = pending.token().clone();
        assert_eq!(25, token.len());
        assert!(token.chars().all(|c| c.is_ascii_alphanumeric()));
        assert!(seen.insert(token), "a confirmation token repeated");
    }
}

#[test]
fn try_from_accepts_exactly_the_valid_forms() {
    let form = FormData { email: "a@example.com".to_string(), name: "A. Name".to_string() };
    let subscriber = Subscriber::try_from(form).unwrap();
    assert_eq!(subscriber.email.as_ref(), "a@example.com");
    assert_eq!(subscriber.name.as_ref(), "A. Name");

    let form = FormData { email: "a@example.com".to_string(), name: "A. Name".to_string() };
    let new_subscriber = NewSubscriber::try_from(form).unwrap();
    assert_eq!(new_subscriber.email.as_ref(), "a@example.com");
    assert_eq!(new_subscriber.name.as_ref(), "A. Name");

    let bad = FormData { email: "not-an-email".to_string(), name: "A. Name".to_string() };
    assert!(NewSubscriber::try_from(bad).is_err());
}

#[test]
fn subscribe_error_status_codes() {
    assert_eq!(400, SubscribeError::ValidationError.status_code());
    assert_eq!(500, SubscribeError::StorageFailure.status_code());
    assert_eq!(500, SubscribeError::NotificationFailure.status_code());
}

#[test]
fn duplicate_identifiers_abort_the_transaction() {
    let mut store = SubscriberStore::new();
    let first = begin_subscribe(&"A Name".to_string(), &"a@example.com".to_string()).unwrap();
    assert!(store.subscribe_transaction(first, 42, 1_000, true).is_ok());
    assert_eq!(42, store.subscriber_at(0).id);
    assert_eq!(1_000, store.subscriber_at(0).subscribed_at);

    // the same identifier again: the storage layer refuses the row and the
    // whole transaction rolls back
    let clashing = begin_subscribe(&"B Name".to_string(), &"b@example.com".to_string()).unwrap();
    assert_eq!(
        store.subscribe_transaction(clashing, 42, 1_001, true),
        Err(SubscribeError::StorageFailure)
    );
    assert_eq!(1, store.subscriber_count());
    assert_eq!(1, store.token_count());

    let fresh = begin_subscribe(&"B Name".to_string(), &"b@example.com".to_string()).unwrap();
    assert!(store.subscribe_transaction(fresh, 43, 1_001, true).is_ok());
    assert_eq!(2, store.subscriber_count());
}

#[test]
fn health_check_check_form_data_valid() {
    let mut store = SubscriberStore::new();
    assert_eq!(200, subscribe_status(&mut store, "kither god", "kither_123@gmail.com"));
    let saved = store.subscriber_at(0);
    assert_eq!(saved.name.as_ref(), "kither god");
    assert_eq!(saved.email.as_ref(), "kither_123@gmail.com");
}

#[test]
fn health_check_check_form_data_unvalid() {
    for (name, email) in [("kither god", ""), ("", "kither_123@gmail.com"), ("", "")] {
        let mut store = SubscriberStore::new();
        assert_eq!(400, subscribe_status(&mut store, name, email));
    }
}

#[test]
fn check_form_present_but_invalid() {
    for (name, email) in [("", "kither_123@gmail.com"), ("sadfsdf", "")] {
        let mut store = SubscriberStore::new();
        assert_eq!(400, subscribe_status(&mut store, name, email));
    }
}

#[test]
fn subscribe_fails_if_there_is_a_fatal_database_error() {
    // occupy an identifier, then drive a second transaction into the same
    // one: the storage layer refuses the row and the attempt answers with a
    // server error
    let mut store = SubscriberStore::new();
    let first = begin_subscribe(&"testName".to_string(), &"testEmail@gmail.com".to_string())
        .unwrap();
    store.subscribe_transaction(first, 7, 0, true).unwrap();
    let second = begin_subscribe(&"testName".to_string(), &"testEmail@gmail.com".to_string())
        .unwrap();
    let status = match store.subscribe_transaction(second, 7, 1, true) {
        Ok(_) => 200,
        Err(e) => e.status_code(),
    };
    assert_eq!(status, 500);
}

use argon2::PasswordHasher;
use base64::Engine;
use rust_email_newsletter::auth::{
    basic_authentication, validate_credentials, verify, AuthError, Credential, CredentialLookup,
    CredentialStore,
};
use rust_email_newsletter::newsletter::{publish_newsletter, www_authenticate_value, BodyData};
use rust_email_newsletter::store::SubscriberStore;

fn password_hash_of(password: &str) -> String {
    argon2::Argon2::default()
        .hash_password_with_salt(password.as_bytes(), b"a-test-salt-of-16")
        .expect("Failed to hash the test password")
        .to_string()
}

fn credential_store_with(username: &str, password: &str) -> CredentialStore {
    let mut credentials = CredentialStore::new();
    assert!(credentials.add_user(Credential {
        user_id: 7,
        username: username.to_string(),
        password_hash: password_hash_of(password),
    }));
    credentials
}

fn basic_header(username: &str, password: &str) -> String {
    let encoded =
        base64::engine::general_purpose::STANDARD.encode(format!("{}:{}", username, password));
    format!("Basic {}", encoded)
}

fn body() -> BodyData {
    BodyData {
        subject: "Newsletter title".to_string(),
        content: "Newsletter body as plain text".to_string(),
    }
}

#[test]
fn requests_missing_authorization_are_rejected() {
    let store = SubscriberStore::new();
    let credentials = credential_store_with("an-operator", "a-password");
    let r = publish_newsletter(&body(), None, &store, &credentials);
    assert!(matches!(r, Err(AuthError::Unauthorized)));
    assert_eq!(401, AuthError::Unauthorized.status_code());
    assert_eq!(r#"Basic realm="publish""#, www_authenticate_value());
}

#[test]
fn newsletter_are_delivered_to_confirmed_subscriber() {
    let mut store = SubscriberStore::new();
    let token = store
        .subscribe(&"testName".to_string(), &"testEmail@gmail.com".to_string(), true)
        .unwrap();
    store.confirm(Some(&token)).unwrap();

    let credentials = credential_store_with("an-operator", "a-password");
    let header = basic_header("an-operator", "a-password");
    let newsletter_body = BodyData {
        subject: "Newsletter title".to_string(),
        content: "<p>Newsletter body as HTML</p>".to_string(),
    };
    let dispatches =
        publish_newsletter(&newsletter_body, Some(&header), &store, &credentials).unwrap();
    assert_eq!(1, dispatches.len());
    assert_eq!("testEmail@gmail.com", dispatches[0].recipient_email);
    assert_eq!("testName", dispatches[0].recipient_name);
    assert_eq!("Newsletter title", dispatches[0].subject);
    assert_eq!("<p>Newsletter body as HTML</p>", dispatches[0].content);
}

#[test]
fn pending_subscribers_get_no_newsletter() {
    let mut store = SubscriberStore::new();
    store
        .subscribe(&"testName".to_string(), &"testEmail@gmail.com".to_string(), true)
        .unwrap();
    let credentials = credential_store_with("an-operator", "a-password");
    let header = basic_header("an-operator", "a-password");
    let dispatches = publish_newsletter(&body(), Some(&header), &store, &credentials).unwrap();
    assert!(dispatches.is_empty());
}

#[test]
fn non_existing_user_is_rejected() {
    let store = SubscriberStore::new();
    let credentials = credential_store_with("an-operator", "a-password");
    let header = basic_header("somebody-else", "anything");
    let r = publish_newsletter(&body(), Some(&header), &store, &credentials);
    assert!(matches!(r, Err(AuthError::Unauthorized)));
    assert_eq!(r#"Basic realm="publish""#, www_authenticate_value());
}

#[test]
fn invalid_password_is_rejected() {
    let store = SubscriberStore::new();
    let credentials = credential_store_with("an-operator", "a-password");
    let header = basic_header("an-operator", "a-wrong-password");
    let r = publish_newsletter(&body(), Some(&header), &store, &credentials);
    assert!(matches!(r, Err(AuthError::Unauthorized)));
    assert_eq!(r#"Basic realm="publish""#, www_authenticate_value());
}

#[test]
fn unknown_user_and_wrong_password_are_rejected_alike() {
    let credentials = credential_store_with("real-user", "the-password");
    let unknown = verify(&credentials, &"unknown-user".to_string(), &"anything".to_string());
    let wrong = verify(&credentials, &"real-user".to_string(), &"wrong-password".to_string());
    assert_eq!(unknown, Err(AuthError::Unauthorized));
    assert_eq!(wrong, Err(AuthError::Unauthorized));
    assert_eq!(unknown, wrong);
    let good = verify(&credentials, &"real-user".to_string(), &"the-password".to_string());
    assert_eq!(good, Ok(7));
}

#[test]
fn malformed_authorization_headers_are_rejected() {
    for header in [
        "",
        "Bearer abc",
        "Basic",
        "Basic !!!not-base64!!!",
        // valid base64 of bytes that are not UTF-8
        "Basic /w==",
        // valid base64 of a string with no colon
        "Basic dXNlcm5hbWU=",
    ] {
        let r = basic_authentication(header);
        assert!(r.is_err(), "header {:?} must be rejected", header);
    }
}

#[test]
fn well_formed_authorization_header_decodes() {
    let header = basic_header("user", "pa:ss:word");
    let credentials = basic_authentication(&header).unwrap();
    // split at the first colon only: the password may contain colons
    assert_eq!("user", credentials.username);
    assert_eq!("pa:ss:word", credentials.password);
}

#[test]
fn store_errors_fail_fast_as_internal() {
    let r = validate_credentials(CredentialLookup::StoreError, &"a-password".to_string());
    assert_eq!(r, Err(AuthError::InternalFailure));
    assert_eq!(500, AuthError::InternalFailure.status_code());
}

#[test]
fn duplicate_usernames_are_refused() {
    let mut credentials = CredentialStore::new();
    assert!(credentials.add_user(Credential {
        user_id: 1,
        username: "an-operator".to_string(),
        password_hash: password_hash_of("one"),
    }));
    assert!(!credentials.add_user(Credential {
        user_id: 2,
        username: "an-operator".to_string(),
        password_hash: password_hash_of("two"),
    }));
}

#[test]
fn end_to_end_subscribe_confirm_publish() {
    let mut store = SubscriberStore::new();
    let token = store
        .subscribe(&"A. Name".to_string(), &"a@example.com".to_string(), true)
        .unwrap();
    store.confirm(Some(&token)).unwrap();

    let credentials = credential_store_with("an-operator", "a-password");
    let header = basic_header("an-operator", "a-password");
    let newsletter_body = BodyData {
        subject: "subj".to_string(),
        content: "body".to_string(),
    };
    let dispatches =
        publish_newsletter(&newsletter_body, Some(&header), &store, &credentials).unwrap();
    assert!(dispatches
        .iter()
        .any(|d| d.recipient_email == "a@example.com" && d.recipient_name == "A. Name"));

    // the same request without an Authorization header is turned away with
    // the challenge
    let r = publish_newsletter(&newsletter_body, None, &store, &credentials);
    assert!(matches!(r, Err(AuthError::Unauthorized)));
    assert_eq!(r#"Basic realm="publish""#, www_authenticate_value());
}

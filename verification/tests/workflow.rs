//! End-to-end tests of the subscription workflow over the in-memory store.

use zero2prod::domain::NewSubscriber;
use zero2prod::domain::SubscriberEmail;
use zero2prod::domain::SubscriberName;
use zero2prod::domain::ValidationError;
use zero2prod::email_client::EmailClient;
use zero2prod::email_client::dispatch_outcome;
use zero2prod::store::SubscriberStatus;
use zero2prod::store::SubscriptionStore;
use zero2prod::store::Transaction;
use zero2prod::store::get_or_insert_subscriber;
use zero2prod::store::get_subscriber_id_by_email;
use zero2prod::store::store_token;
use zero2prod::subscriptions::SubscribeError;
use zero2prod::subscriptions::SubscribeOutcome;
use zero2prod::subscriptions::response_code;
use zero2prod::subscriptions::subscribe;

const BASE_URL: &str = "http://127.0.0.1:8000";

fn email_client() -> EmailClient {
    let sender = SubscriberEmail::parse("newsletter@example.com".to_string()).unwrap();
    EmailClient::new("http://provider.example/", sender, "ctoken".to_string()).unwrap()
}

#[test]
fn subscribe_returns_200_for_valid_form() {
    let client = email_client();
    let store = SubscriptionStore::new();
    let body = "name=le%20guin&email=ursula_le_guin%40gmail.com";
    match subscribe(store, body, &client, BASE_URL) {
        SubscribeOutcome::Accepted { store, .. } => {
            let code = response_code(&dispatch_outcome(Some(200)).map_err(|_| {
                SubscribeError::Dispatch
            }));
            assert_eq!(code, 200);
            assert_eq!(store.subscribers.len(), 1);
            assert_eq!(store.subscribers[0].email, "ursula_le_guin@gmail.com");
            assert_eq!(store.subscribers[0].name, "le guin");
        }
        SubscribeOutcome::Rejected { .. } => panic!("valid form was rejected"),
    }
}

#[test]
fn subscribe_returns_400_for_missing_data() {
    let client = email_client();
    let cases = [
        ("name=le%20guin", "missing the email"),
        ("email=ursula_le_guin%40gmail.com", "missing the name"),
        ("", "missing both name and email"),
    ];
    for (body, description) in cases {
        let store = SubscriptionStore::new();
        match subscribe(store, body, &client, BASE_URL) {
            SubscribeOutcome::Rejected { store, .. } => {
                let code = response_code(&Err(SubscribeError::Validation));
                assert_eq!(code, 400, "wrong status when {}", description);
                assert_eq!(store.subscribers.len(), 0, "a row was written when {}", description);
                assert_eq!(store.tokens.len(), 0, "a token was written when {}", description);
            }
            SubscribeOutcome::Accepted { .. } => {
                panic!("accepted a request that was {}", description)
            }
        }
    }
}

#[test]
fn subscribe_rejects_a_malformed_email() {
    let client = email_client();
    let store = SubscriptionStore::new();
    match subscribe(store, "name=le%20guin&email=definitely-not-an-email", &client, BASE_URL) {
        SubscribeOutcome::Rejected { error, store } => {
            assert_eq!(error, ValidationError::InvalidEmail);
            assert_eq!(store.subscribers.len(), 0);
        }
        SubscribeOutcome::Accepted { .. } => panic!("accepted a malformed email"),
    }
}

#[test]
fn subscribing_twice_reuses_the_subscriber_row() {
    let client = email_client();
    let store = SubscriptionStore::new();
    let first = subscribe(
        store,
        "name=le%20guin&email=ursula_le_guin%40gmail.com",
        &client,
        BASE_URL,
    );
    let (store, first_id) = match first {
        SubscribeOutcome::Accepted { store, subscriber_id, .. } => (store, subscriber_id),
        SubscribeOutcome::Rejected { .. } => panic!("first subscription was rejected"),
    };
    let second = subscribe(
        store,
        "name=URSULA&email=ursula_le_guin%40gmail.com",
        &client,
        BASE_URL,
    );
    match second {
        SubscribeOutcome::Accepted { store, subscriber_id, .. } => {
            assert_eq!(subscriber_id, first_id);
            assert_eq!(store.subscribers.len(), 1);
            assert_eq!(store.subscribers[0].name, "le guin");
            assert_eq!(store.tokens.len(), 2);
        }
        SubscribeOutcome::Rejected { .. } => panic!("second subscription was rejected"),
    }
}

#[test]
fn aborted_transaction_leaves_no_partial_state() {
    let store = SubscriptionStore::new();
    let mut tx = Transaction::begin(store);
    let new_subscriber = NewSubscriber {
        email: SubscriberEmail::parse("ursula_le_guin@gmail.com".to_string()).unwrap(),
        name: SubscriberName::parse("le guin".to_string()).unwrap(),
    };
    let id = get_or_insert_subscriber(&mut tx, &new_subscriber, 7, 0);
    assert_eq!(id, 7);
    assert!(get_subscriber_id_by_email(&tx, &new_subscriber.email).is_some());
    store_token(&mut tx, id, "wviSemPMoZkGWKcYcCF25Ffjf");
    let store = tx.rollback();
    assert_eq!(store.subscribers.len(), 0);
    assert_eq!(store.tokens.len(), 0);
}

#[test]
fn dispatch_failure_after_commit_keeps_the_rows() {
    let client = email_client();
    let store = SubscriptionStore::new();
    let outcome = subscribe(
        store,
        "name=le%20guin&email=ursula_le_guin%40gmail.com",
        &client,
        BASE_URL,
    );
    match outcome {
        SubscribeOutcome::Accepted { store, subscriber_id, .. } => {
            assert!(dispatch_outcome(Some(500)).is_err());
            let code = response_code(&Err(SubscribeError::Dispatch));
            assert_eq!(code, 500);
            assert_eq!(store.subscribers.len(), 1);
            assert_eq!(store.subscribers[0].email, "ursula_le_guin@gmail.com");
            assert_eq!(store.tokens.len(), 1);
            assert_eq!(store.tokens[0].subscriber_id, subscriber_id);
        }
        SubscribeOutcome::Rejected { .. } => panic!("valid form was rejected"),
    }
}

#[test]
fn end_to_end_subscription_scenario() {
    let client = email_client();
    let store = SubscriptionStore::new();
    let outcome = subscribe(
        store,
        "name=le%20guin&email=ursula_le_guin%40gmail.com",
        &client,
        BASE_URL,
    );
    match outcome {
        SubscribeOutcome::Accepted { store, subscriber_id, token, email } => {
            let code = response_code(&Ok(()));
            assert_eq!(code, 200);

            assert_eq!(store.subscribers.len(), 1);
            let row = &store.subscribers[0];
            assert_eq!(row.id, subscriber_id);
            assert_eq!(row.email, "ursula_le_guin@gmail.com");
            assert_eq!(row.name, "le guin");
            assert_eq!(row.status, SubscriberStatus::PendingConfirmation);

            assert_eq!(store.tokens.len(), 1);
            assert_eq!(store.tokens[0].subscription_token, token);
            assert_eq!(store.tokens[0].subscriber_id, subscriber_id);

            assert_eq!(token.chars().count(), 25);
            assert!(token.chars().all(|c| c.is_ascii_alphanumeric()));
            let link = format!(
                "{}/subscriptions/confirm?subscription_token={}",
                BASE_URL, token
            );
            assert!(email.html_body.contains(&link));
            assert!(email.text_body.contains(&link));
            assert_eq!(email.to, "ursula_le_guin@gmail.com");
            assert_eq!(email.subject, "Welcome!");
        }
        SubscribeOutcome::Rejected { .. } => panic!("valid form was rejected"),
    }
}

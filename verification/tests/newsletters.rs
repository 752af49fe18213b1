use zero2prod::admin_newsletters::{
    complete_publish, parse_body_data, publish_newsletter, BodyData, PublishOutcome,
};
use zero2prod::domain::SubscriberEmail;
use zero2prod::email_client::{EmailClient, SendEmailRequest};
use zero2prod::http::HttpResponse;
use zero2prod::idempotency::IdempotencyStore;
use zero2prod::secret::SecretString;
use zero2prod::session_state::TypedSession;
use zero2prod::subscriptions::{SubscriberRow, SubscriptionStore};
use zero2prod::SubscriberStatus;

fn email_client() -> EmailClient {
    let sender = SubscriberEmail::parse("newsletter@example.com".to_string()).unwrap();
    EmailClient::new(
        "https://mail.example.com".to_string(),
        sender,
        SecretString::new("mail-api-token".to_string()),
    )
}

fn subscriber(id: u128, email: &str, status: SubscriberStatus) -> SubscriberRow {
    SubscriberRow {
        id,
        email: email.to_string(),
        name: "subscriber".to_string(),
        status,
    }
}

fn authenticated_session(user_id: u128) -> TypedSession {
    let mut session = TypedSession::new();
    session.insert_user(user_id);
    session
}

fn issue() -> BodyData {
    BodyData {
        title: "New Title".to_string(),
        html_content: "<p>Newsletter body as HTML</p>".to_string(),
        text_content: "Newsletter body as plain text".to_string(),
    }
}

fn publish_once(
    session: &TypedSession,
    key: &str,
    guard: &mut IdempotencyStore,
    store: &SubscriptionStore,
) -> PublishOutcome {
    publish_newsletter(
        session,
        &issue(),
        &key.to_string(),
        1700000000,
        guard,
        store,
        &email_client(),
    )
}

fn expect_execute(outcome: PublishOutcome) -> (HttpResponse, Vec<SendEmailRequest>, usize) {
    match outcome {
        PublishOutcome::Execute { response, deliveries, skipped } => (response, deliveries, skipped),
        _ => panic!("expected a fresh submission to execute the fan-out"),
    }
}

#[test]
fn must_login_to_post_newsletter() {
    let session = TypedSession::new();
    let mut guard = IdempotencyStore::new();
    let store = SubscriptionStore::new();

    match publish_once(&session, "key-1", &mut guard, &store) {
        PublishOutcome::RedirectToLogin(response) => {
            assert_eq!(response.status, 303);
            assert_eq!(response.location.as_deref(), Some("/login"));
        }
        _ => panic!("an anonymous caller must be sent to the login form"),
    }
    assert!(guard.records.is_empty());
}

#[test]
fn newsletters_are_not_delivered_to_unconfirmed_subscribers() {
    let session = authenticated_session(42);
    let mut guard = IdempotencyStore::new();
    let mut store = SubscriptionStore::new();
    store.add_row(subscriber(1, "pending@example.com", SubscriberStatus::PendingConfirmation));
    store.add_row(subscriber(2, "confirmed@example.com", SubscriberStatus::Confirmed));

    let (_, deliveries, skipped) =
        expect_execute(publish_once(&session, "key-1", &mut guard, &store));

    assert_eq!(deliveries.len(), 1);
    assert_eq!(deliveries[0].to, "confirmed@example.com");
    assert_eq!(skipped, 0);
}

#[test]
fn newsletters_are_delivered_to_confirmed_subscribers() {
    let session = authenticated_session(42);
    let mut guard = IdempotencyStore::new();
    let mut store = SubscriptionStore::new();
    store.add_row(subscriber(1, "first@example.com", SubscriberStatus::Confirmed));
    store.add_row(subscriber(2, "second@example.com", SubscriberStatus::Confirmed));

    let (response, deliveries, skipped) =
        expect_execute(publish_once(&session, "key-1", &mut guard, &store));

    assert_eq!(response.status, 303);
    assert_eq!(response.location.as_deref(), Some("/admin/newsletters"));
    assert_eq!(
        response.flashes,
        vec!["The newsletter issue has been published!".to_string()]
    );
    assert_eq!(deliveries.len(), 2);
    assert_eq!(deliveries[0].to, "first@example.com");
    assert_eq!(deliveries[0].from, "newsletter@example.com");
    assert_eq!(deliveries[0].subject, "New Title");
    assert_eq!(deliveries[0].html_body, "<p>Newsletter body as HTML</p>");
    assert_eq!(deliveries[0].text_body, "Newsletter body as plain text");
    assert_eq!(deliveries[1].to, "second@example.com");
    assert_eq!(skipped, 0);
}

#[test]
fn a_malformed_stored_email_is_skipped_and_the_rest_are_delivered() {
    let session = authenticated_session(42);
    let mut guard = IdempotencyStore::new();
    let mut store = SubscriptionStore::new();
    store.add_row(subscriber(1, "first@example.com", SubscriberStatus::Confirmed));
    store.add_row(subscriber(2, "definitely-not-an-email", SubscriberStatus::Confirmed));
    store.add_row(subscriber(3, "third@example.com", SubscriberStatus::Confirmed));

    let (_, deliveries, skipped) =
        expect_execute(publish_once(&session, "key-1", &mut guard, &store));

    assert_eq!(deliveries.len(), 2);
    assert_eq!(deliveries[0].to, "first@example.com");
    assert_eq!(deliveries[1].to, "third@example.com");
    assert_eq!(skipped, 1);
}

#[test]
fn two_confirmed_subscribers_one_invalid_yields_exactly_one_delivery() {
    let session = authenticated_session(42);
    let mut guard = IdempotencyStore::new();
    let mut store = SubscriptionStore::new();
    store.add_row(subscriber(1, "valid@example.com", SubscriberStatus::Confirmed));
    store.add_row(subscriber(2, "broken email", SubscriberStatus::Confirmed));

    let (_, deliveries, skipped) =
        expect_execute(publish_once(&session, "key-1", &mut guard, &store));

    assert_eq!(deliveries.len(), 1);
    assert_eq!(deliveries[0].to, "valid@example.com");
    assert_eq!(skipped, 1);
}

#[test]
fn newsletter_creation_is_idempotent() {
    let session = authenticated_session(42);
    let mut guard = IdempotencyStore::new();
    let mut store = SubscriptionStore::new();
    store.add_row(subscriber(1, "confirmed@example.com", SubscriberStatus::Confirmed));

    let (response, deliveries, _) =
        expect_execute(publish_once(&session, "key-1", &mut guard, &store));
    assert_eq!(deliveries.len(), 1, "Expect 1 delivery to the mail API.");
    complete_publish(42, &"key-1".to_string(), &response, &mut guard).unwrap();

    match publish_once(&session, "key-1", &mut guard, &store) {
        PublishOutcome::Replayed(replayed) => {
            assert_eq!(replayed, response);
        }
        _ => panic!("a repeated submission must replay the saved response without delivering"),
    }
}

#[test]
fn concurrent_form_submission_is_handled_gracefully() {
    let first_caller = authenticated_session(42);
    let second_caller = authenticated_session(42);
    let mut guard = IdempotencyStore::new();
    let mut store = SubscriptionStore::new();
    store.add_row(subscriber(1, "confirmed@example.com", SubscriberStatus::Confirmed));

    // The first caller wins the record and owns the one fan-out.
    let (response, deliveries, _) =
        expect_execute(publish_once(&first_caller, "key-1", &mut guard, &store));
    assert_eq!(deliveries.len(), 1, "Expect 1 delivery to the mail API.");

    // The second caller arrives while the first is still in flight: it must
    // wait, not deliver.
    match publish_once(&second_caller, "key-1", &mut guard, &store) {
        PublishOutcome::InFlight => {}
        _ => panic!("a concurrent submission must observe the in-progress record"),
    }

    // Once the winner completes, the second caller's retry replays the very
    // same response.
    complete_publish(42, &"key-1".to_string(), &response, &mut guard).unwrap();
    match publish_once(&second_caller, "key-1", &mut guard, &store) {
        PublishOutcome::Replayed(replayed) => {
            assert_eq!(replayed.status, response.status);
            assert_eq!(replayed.body, response.body);
            assert_eq!(replayed, response);
        }
        _ => panic!("the loser must converge to the winner's saved response"),
    }
}

#[test]
fn a_different_idempotency_key_executes_independently() {
    let session = authenticated_session(42);
    let mut guard = IdempotencyStore::new();
    let mut store = SubscriptionStore::new();
    store.add_row(subscriber(1, "confirmed@example.com", SubscriberStatus::Confirmed));

    let (response, _, _) = expect_execute(publish_once(&session, "key-1", &mut guard, &store));
    complete_publish(42, &"key-1".to_string(), &response, &mut guard).unwrap();

    let (_, deliveries, _) = expect_execute(publish_once(&session, "key-2", &mut guard, &store));
    assert_eq!(deliveries.len(), 1);
}

#[test]
fn a_saved_outcome_is_never_overwritten() {
    let session = authenticated_session(42);
    let mut guard = IdempotencyStore::new();
    let store = SubscriptionStore::new();

    let (response, _, _) = expect_execute(publish_once(&session, "key-1", &mut guard, &store));
    complete_publish(42, &"key-1".to_string(), &response, &mut guard).unwrap();

    let other = zero2prod::http::e500("a different outcome".to_string());
    complete_publish(42, &"key-1".to_string(), &other, &mut guard).unwrap();

    match publish_once(&session, "key-1", &mut guard, &store) {
        PublishOutcome::Replayed(replayed) => assert_eq!(replayed, response),
        _ => panic!("the original saved response must survive"),
    }
}

#[test]
fn newsletters_returns_400_for_invalid_data() {
    let cases: Vec<(Option<String>, Option<String>, Option<String>, &str)> = vec![
        (
            None,
            Some("<p>Newsletter body as HTML</p>".to_string()),
            Some("Newsletter body as plain text".to_string()),
            "missing title",
        ),
        (Some("New newsletter".to_string()), None, None, "missing content"),
    ];
    for (title, html, text, case) in cases {
        let response = match parse_body_data(title, html, text) {
            Err(response) => response,
            Ok(_) => panic!("incomplete payloads must be rejected"),
        };
        assert_eq!(
            response.status, 400,
            "The API did not fail with 400 Bad Request when the payload was {}",
            case
        );
    }
}

#[test]
fn an_unreachable_guard_store_cannot_save_an_outcome() {
    let session = authenticated_session(42);
    let mut guard = IdempotencyStore::new();
    let store = SubscriptionStore::new();

    let (response, _, _) = expect_execute(publish_once(&session, "key-1", &mut guard, &store));
    guard.available = false;
    let saved = complete_publish(42, &"key-1".to_string(), &response, &mut guard);
    assert!(saved.is_err());
}

#[test]
fn an_unreachable_subscriber_store_aborts_the_attempt() {
    let session = authenticated_session(42);
    let mut guard = IdempotencyStore::new();
    let mut store = SubscriptionStore::new();
    store.available = false;

    match publish_once(&session, "key-1", &mut guard, &store) {
        PublishOutcome::Failed(response) => assert_eq!(response.status, 500),
        _ => panic!("an unreachable store must abort the publish attempt"),
    }
    assert!(guard.records.is_empty());
}

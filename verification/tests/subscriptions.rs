use zero2prod::domain::SubscriberEmail;
use zero2prod::email_client::EmailClient;
use zero2prod::secret::SecretString;
use zero2prod::subscriptions::{
    confirm_subscription, generate_subscription_token, subscribe, Parameters, SubscribeError,
    SubscriptionStore,
};
use zero2prod::SubscriberStatus;

fn email_client() -> EmailClient {
    let sender = SubscriberEmail::parse("newsletter@example.com".to_string()).unwrap();
    EmailClient::new(
        "https://mail.example.com".to_string(),
        sender,
        SecretString::new("mail-api-token".to_string()),
    )
}

fn base_url() -> String {
    "https://zero2prod.example.com".to_string()
}

#[test]
fn subscribe_returns_a_200_for_valid_form_data() {
    let mut store = SubscriptionStore::new();
    let (response, _) = subscribe(
        "ursula_le_guin@gmail.com".to_string(),
        "le guin".to_string(),
        &mut store,
        &email_client(),
        &base_url(),
    )
    .unwrap();
    assert_eq!(response.status, 200);
}

#[test]
fn subscribe_persists_the_new_subscriber_as_pending() {
    let mut store = SubscriptionStore::new();
    subscribe(
        "ursula_le_guin@gmail.com".to_string(),
        "le guin".to_string(),
        &mut store,
        &email_client(),
        &base_url(),
    )
    .unwrap();

    assert_eq!(store.rows.len(), 1);
    let saved = &store.rows[0];
    assert_eq!(saved.email, "ursula_le_guin@gmail.com");
    assert_eq!(saved.name, "le guin");
    assert_eq!(saved.status, SubscriberStatus::PendingConfirmation);
}

#[test]
fn subscribe_rejects_invalid_form_data() {
    let cases = vec![
        ("ursula_le_guin@gmail.com", "", "empty name"),
        ("", "Ursula", "empty email"),
        ("definitely-not-an-email", "Ursula", "invalid email"),
    ];
    for (email, name, case) in cases {
        let mut store = SubscriptionStore::new();
        let outcome = subscribe(
            email.to_string(),
            name.to_string(),
            &mut store,
            &email_client(),
            &base_url(),
        );
        match outcome {
            Err(e @ SubscribeError::ValidationError(_)) => {
                assert_eq!(
                    e.status_code(),
                    400,
                    "The API did not return a 400 when the payload was {}.",
                    case
                );
            }
            _ => panic!("The API did not reject the payload: {}.", case),
        }
        assert!(store.rows.is_empty());
    }
}

#[test]
fn subscribe_sends_a_confirmation_email_with_a_link() {
    let mut store = SubscriptionStore::new();
    let (_, confirmation) = subscribe(
        "ursula_le_guin@gmail.com".to_string(),
        "Ursula".to_string(),
        &mut store,
        &email_client(),
        &base_url(),
    )
    .unwrap();

    assert_eq!(confirmation.to, "ursula_le_guin@gmail.com");
    assert_eq!(confirmation.from, "newsletter@example.com");
    assert_eq!(confirmation.subject, "Welcome!");

    let token = &store.tokens[0].subscription_token;
    let link = format!(
        "https://zero2prod.example.com/subscriptions/confirm?subscription_token={}",
        token
    );
    assert!(confirmation.html_body.contains(&link));
    assert!(confirmation.text_body.contains(&link));
    assert_eq!(
        confirmation.html_body,
        format!(
            "Welcome to our newsletter!<br />Click <a href=\"{}\">here</a> to confirm your subscription.",
            link
        )
    );
    assert_eq!(
        confirmation.text_body,
        format!("Welcome to our newsletter!\nVisit {} to confirm your subscription.", link)
    );
}

#[test]
fn clicking_on_the_confirmation_link_confirms_the_subscriber() {
    let mut store = SubscriptionStore::new();
    subscribe(
        "ursula_le_guin@gmail.com".to_string(),
        "Ursula".to_string(),
        &mut store,
        &email_client(),
        &base_url(),
    )
    .unwrap();

    let parameters = Parameters {
        subscription_token: store.tokens[0].subscription_token.clone(),
    };
    let response = confirm_subscription(&parameters, &mut store).unwrap();
    assert_eq!(response.status, 200);
    assert_eq!(store.rows[0].status, SubscriberStatus::Confirmed);
}

#[test]
fn confirmations_with_an_unknown_token_are_rejected() {
    let mut store = SubscriptionStore::new();
    let parameters = Parameters {
        subscription_token: "mysterious-token-nobody-was-given".to_string(),
    };
    let outcome = confirm_subscription(&parameters, &mut store);
    match outcome {
        Err(e) => assert_eq!(e.status_code(), 401),
        Ok(_) => panic!("an unknown token must not confirm anybody"),
    }
}

#[test]
fn subscribe_fails_if_the_store_is_unreachable() {
    let mut store = SubscriptionStore::new();
    store.available = false;
    let outcome = subscribe(
        "ursula_le_guin@gmail.com".to_string(),
        "Ursula".to_string(),
        &mut store,
        &email_client(),
        &base_url(),
    );
    match outcome {
        Err(e @ SubscribeError::UnexpectedError) => assert_eq!(e.status_code(), 500),
        _ => panic!("an unreachable store must surface an internal error"),
    }
}

#[test]
fn subscription_tokens_are_25_alphanumeric_characters() {
    let token = generate_subscription_token();
    assert_eq!(token.len(), 25);
    assert!(token.chars().all(|c| c.is_ascii_alphanumeric()));
    let another = generate_subscription_token();
    assert_eq!(another.len(), 25);
}

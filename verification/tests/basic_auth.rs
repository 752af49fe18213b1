use zero2prod::authentication::CredentialStore;
use zero2prod::domain::SubscriberEmail;
use zero2prod::email_client::EmailClient;
use zero2prod::newsletters::{
    basic_authentication, publish_newsletter, BodyData, Content, PublishError,
};
use zero2prod::secret::SecretString;
use zero2prod::subscriptions::{SubscriberRow, SubscriptionStore};
use zero2prod::SubscriberStatus;

fn basic_header(username: &str, password: &str) -> String {
    let encoded = base64::encode_config(format!("{}:{}", username, password), base64::STANDARD);
    format!("Basic {}", encoded)
}

fn email_client() -> EmailClient {
    let sender = SubscriberEmail::parse("newsletter@example.com".to_string()).unwrap();
    EmailClient::new(
        "https://mail.example.com".to_string(),
        sender,
        SecretString::new("mail-api-token".to_string()),
    )
}

fn seeded_credential_store() -> CredentialStore {
    let mut store = CredentialStore::new();
    let password = SecretString::new("correct-horse".to_string());
    store.add_user(42, "ursula".to_string(), &password).unwrap();
    store
}

fn body() -> BodyData {
    BodyData {
        title: "New Title".to_string(),
        content: Content {
            html: "<p>Newsletter body as HTML</p>".to_string(),
            text: "Newsletter body as plain text".to_string(),
        },
    }
}

#[test]
fn a_well_formed_basic_header_decodes_to_the_credential() {
    let header = basic_header("ursula", "correct-horse");
    let credential = basic_authentication(Some(&header)).unwrap();
    assert_eq!(credential.username, "ursula");
    assert_eq!(credential.password.expose_secret(), "correct-horse");
}

#[test]
fn the_password_may_itself_contain_colons() {
    let header = basic_header("ursula", "co:lo:ns");
    let credential = basic_authentication(Some(&header)).unwrap();
    assert_eq!(credential.username, "ursula");
    assert_eq!(credential.password.expose_secret(), "co:lo:ns");
}

#[test]
fn malformed_authorization_headers_are_rejected() {
    assert!(basic_authentication(None).is_err());
    assert!(basic_authentication(Some(&"Bearer abc".to_string())).is_err());
    assert!(basic_authentication(Some(&"Basic !!!not-base64!!!".to_string())).is_err());
    let no_colon = format!(
        "Basic {}",
        base64::encode_config("no-separator", base64::STANDARD)
    );
    assert!(basic_authentication(Some(&no_colon)).is_err());
}

#[test]
fn publishing_with_valid_credentials_fans_out_to_confirmed_subscribers() {
    let credential_store = seeded_credential_store();
    let mut subscription_store = SubscriptionStore::new();
    subscription_store.add_row(SubscriberRow {
        id: 1,
        email: "confirmed@example.com".to_string(),
        name: "subscriber".to_string(),
        status: SubscriberStatus::Confirmed,
    });

    let header = basic_header("ursula", "correct-horse");
    let (response, deliveries, skipped) = publish_newsletter(
        Some(&header),
        &body(),
        &credential_store,
        &subscription_store,
        &email_client(),
    )
    .unwrap();

    assert_eq!(response.status, 200);
    assert_eq!(deliveries.len(), 1);
    assert_eq!(deliveries[0].to, "confirmed@example.com");
    assert_eq!(skipped, 0);
}

#[test]
fn publishing_with_wrong_credentials_is_unauthorized() {
    let credential_store = seeded_credential_store();
    let subscription_store = SubscriptionStore::new();

    let header = basic_header("ursula", "wrong-horse");
    let outcome = publish_newsletter(
        Some(&header),
        &body(),
        &credential_store,
        &subscription_store,
        &email_client(),
    );
    assert!(matches!(outcome, Err(PublishError::AuthError)));
    assert_eq!(PublishError::AuthError.status_code(), 401);
    assert_eq!(PublishError::AuthError.error_response().status, 401);
}

#[test]
fn publishing_against_an_unreachable_credential_store_is_an_internal_error() {
    let mut credential_store = seeded_credential_store();
    credential_store.available = false;
    let subscription_store = SubscriptionStore::new();

    let header = basic_header("ursula", "correct-horse");
    let outcome = publish_newsletter(
        Some(&header),
        &body(),
        &credential_store,
        &subscription_store,
        &email_client(),
    );
    assert!(matches!(outcome, Err(PublishError::UnexpectedError)));
    assert_eq!(PublishError::UnexpectedError.status_code(), 500);
}

#[test]
fn publishing_without_a_header_is_unauthorized() {
    let credential_store = seeded_credential_store();
    let subscription_store = SubscriptionStore::new();

    let outcome = publish_newsletter(
        None,
        &body(),
        &credential_store,
        &subscription_store,
        &email_client(),
    );
    assert!(matches!(outcome, Err(PublishError::AuthError)));
}

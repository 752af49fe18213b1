use zero2prod::admin::{change_password, FormData};
use zero2prod::authentication::{validate_credential, Credential, CredentialStore};
use zero2prod::secret::SecretString;

fn seeded_store() -> CredentialStore {
    let mut store = CredentialStore::new();
    let password = SecretString::new("correct-horse".to_string());
    store.add_user(42, "ursula".to_string(), &password).unwrap();
    store
}

fn form(current: &str, new: &str, check: &str) -> FormData {
    FormData {
        current_password: SecretString::new(current.to_string()),
        new_password: SecretString::new(new.to_string()),
        new_password_check: SecretString::new(check.to_string()),
    }
}

#[test]
fn new_password_fields_must_match() {
    let mut store = seeded_store();
    let response = change_password(42, form("correct-horse", "one-thing", "another"), &mut store);
    assert_eq!(response.status, 303);
    assert_eq!(response.location.as_deref(), Some("/admin/password"));
    assert_eq!(
        response.flashes,
        vec!["You entered two different new passwords - the field values must match.".to_string()]
    );

    let unchanged = validate_credential(
        Credential {
            username: "ursula".to_string(),
            password: SecretString::new("correct-horse".to_string()),
        },
        &store,
    );
    assert_eq!(unchanged, Ok(42));
}

#[test]
fn current_password_must_be_valid() {
    let mut store = seeded_store();
    let response = change_password(
        42,
        form("wrong-horse", "brand-new-passphrase", "brand-new-passphrase"),
        &mut store,
    );
    assert_eq!(response.status, 303);
    assert_eq!(response.location.as_deref(), Some("/admin/password"));
    assert_eq!(
        response.flashes,
        vec!["You entered an invalid password.".to_string()]
    );
}

#[test]
fn changing_password_works() {
    let mut store = seeded_store();
    let response = change_password(
        42,
        form("correct-horse", "brand-new-passphrase", "brand-new-passphrase"),
        &mut store,
    );
    assert_eq!(response.status, 303);
    assert_eq!(response.location.as_deref(), Some("/admin/password"));
    assert_eq!(
        response.flashes,
        vec!["Your password has been changed.".to_string()]
    );

    let with_new = validate_credential(
        Credential {
            username: "ursula".to_string(),
            password: SecretString::new("brand-new-passphrase".to_string()),
        },
        &store,
    );
    assert_eq!(with_new, Ok(42));
}

#[test]
fn unknown_user_or_unreachable_store_is_an_internal_error() {
    let mut store = seeded_store();
    let response = change_password(7, form("x", "y", "y"), &mut store);
    assert_eq!(response.status, 500);

    store.available = false;
    let response = change_password(42, form("x", "y", "y"), &mut store);
    assert_eq!(response.status, 500);
}

use zero2prod::authentication::{
    change_password, get_username, validate_credential, AuthError, Credential, CredentialStore,
};
use zero2prod::secret::SecretString;

fn store_with_user(username: &str, password: &str, user_id: u128) -> CredentialStore {
    let mut store = CredentialStore::new();
    let password = SecretString::new(password.to_string());
    store
        .add_user(user_id, username.to_string(), &password)
        .expect("seeding a reachable store succeeds");
    store
}

fn credential(username: &str, password: &str) -> Credential {
    Credential {
        username: username.to_string(),
        password: SecretString::new(password.to_string()),
    }
}

#[test]
fn correct_password_returns_the_stored_user_id() {
    let store = store_with_user("ursula", "correct-horse", 42);
    let outcome = validate_credential(credential("ursula", "correct-horse"), &store);
    assert_eq!(outcome, Ok(42));
}

#[test]
fn wrong_password_fails_with_invalid_credentials() {
    let store = store_with_user("ursula", "correct-horse", 42);
    let outcome = validate_credential(credential("ursula", "wrong-horse"), &store);
    assert_eq!(outcome, Err(AuthError::InvalidCredentials));
}

#[test]
fn single_character_mutations_of_the_password_fail() {
    let store = store_with_user("ursula", "correct-horse", 42);
    for mutated in [
        "Correct-horse",
        "correct-horsE",
        "correct_horse",
        "correct-hors",
        "correct-horses",
    ] {
        let outcome = validate_credential(credential("ursula", mutated), &store);
        assert_eq!(outcome, Err(AuthError::InvalidCredentials));
    }
}

#[test]
fn unknown_username_fails_with_invalid_credentials() {
    let store = store_with_user("ursula", "correct-horse", 42);
    let outcome = validate_credential(credential("nobody", "anything-at-all"), &store);
    assert_eq!(outcome, Err(AuthError::InvalidCredentials));
}

#[test]
fn unknown_username_and_wrong_password_are_indistinguishable() {
    let store = store_with_user("ursula", "correct-horse", 42);
    let unknown_user = validate_credential(credential("nobody", "whatever"), &store);
    let wrong_password = validate_credential(credential("ursula", "wrong-horse"), &store);
    assert_eq!(unknown_user, wrong_password);
    let a = unknown_user.unwrap_err();
    let b = wrong_password.unwrap_err();
    assert_eq!(a.message(), b.message());
}

#[test]
fn unreachable_store_is_an_unexpected_error() {
    let mut store = store_with_user("ursula", "correct-horse", 42);
    store.available = false;
    let outcome = validate_credential(credential("ursula", "correct-horse"), &store);
    assert_eq!(outcome, Err(AuthError::UnexpectedError));
}

#[test]
fn changed_password_validates_and_the_old_one_stops_working() {
    let mut store = store_with_user("ursula", "correct-horse", 42);
    change_password(
        42,
        SecretString::new("brand-new-passphrase".to_string()),
        &mut store,
    )
    .expect("changing a password on a reachable store succeeds");

    let with_new = validate_credential(credential("ursula", "brand-new-passphrase"), &store);
    assert_eq!(with_new, Ok(42));

    let with_old = validate_credential(credential("ursula", "correct-horse"), &store);
    assert_eq!(with_old, Err(AuthError::InvalidCredentials));
}

#[test]
fn change_password_leaves_other_users_untouched() {
    let mut store = CredentialStore::new();
    let first = SecretString::new("first-password".to_string());
    let second = SecretString::new("second-password".to_string());
    store.add_user(1, "first".to_string(), &first).unwrap();
    store.add_user(2, "second".to_string(), &second).unwrap();

    change_password(1, SecretString::new("rotated".to_string()), &mut store).unwrap();

    let untouched = validate_credential(credential("second", "second-password"), &store);
    assert_eq!(untouched, Ok(2));
}

#[test]
fn get_username_finds_the_stored_name() {
    let store = store_with_user("ursula", "correct-horse", 42);
    assert_eq!(get_username(42, &store).unwrap(), "ursula".to_string());
    assert_eq!(
        get_username(7, &store),
        Err(AuthError::UnexpectedError)
    );
}

#[test]
fn auth_error_messages_never_name_the_failing_half() {
    assert_eq!(AuthError::InvalidCredentials.message(), "Invalid credentials.");
    assert_eq!(AuthError::UnexpectedError.message(), "Something went wrong.");
}

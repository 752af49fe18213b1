use zero2prod::authentication::CredentialStore;
use zero2prod::login::{login, logout, FormData, LoginError};
use zero2prod::secret::SecretString;
use zero2prod::session_state::TypedSession;

fn seeded_store() -> CredentialStore {
    let mut store = CredentialStore::new();
    let password = SecretString::new("correct-horse".to_string());
    store.add_user(42, "ursula".to_string(), &password).unwrap();
    store
}

fn form(username: &str, password: &str) -> FormData {
    FormData {
        username: username.to_string(),
        password: SecretString::new(password.to_string()),
    }
}

#[test]
fn renew_issues_a_fresh_identifier_and_keeps_the_identity() {
    let mut session = TypedSession::new();
    session.insert_user(42);
    let epoch_before = session.epoch;
    session.renew();
    assert_eq!(session.get_user_id(), Some(42));
    assert_eq!(session.epoch, epoch_before + 1);
}

#[test]
fn logout_clears_session_state() {
    let mut session = TypedSession::new();
    session.insert_user(42);
    session.logout();
    assert_eq!(session.get_user_id(), None);
}

#[test]
fn successful_login_binds_the_user_and_redirects_to_the_dashboard() {
    let store = seeded_store();
    let mut session = TypedSession::new();
    let epoch_before = session.epoch;

    let response = match login(form("ursula", "correct-horse"), &store, &mut session) {
        Ok(response) => response,
        Err(_) => panic!("valid credentials log in"),
    };

    assert_eq!(response.status, 303);
    assert_eq!(response.location.as_deref(), Some("/admin/dashboard"));
    assert_eq!(session.get_user_id(), Some(42));
    assert_eq!(session.epoch, epoch_before + 1);
}

#[test]
fn failed_login_redirects_back_with_a_flash_and_leaves_the_session_anonymous() {
    let store = seeded_store();
    let mut session = TypedSession::new();

    let redirect = match login(form("ursula", "wrong-horse"), &store, &mut session) {
        Err(redirect) => redirect,
        Ok(_) => panic!("a wrong password must not log in"),
    };

    assert_eq!(redirect.error, LoginError::AuthError);
    assert_eq!(redirect.response.status, 303);
    assert_eq!(redirect.response.location.as_deref(), Some("/login"));
    assert_eq!(redirect.response.flashes, vec!["Authentication Failed".to_string()]);
    assert_eq!(session.get_user_id(), None);
}

#[test]
fn login_against_an_unreachable_store_is_an_unexpected_error() {
    let mut store = seeded_store();
    store.available = false;
    let mut session = TypedSession::new();

    let redirect = match login(form("ursula", "correct-horse"), &store, &mut session) {
        Err(redirect) => redirect,
        Ok(_) => panic!("an unreachable store cannot log anyone in"),
    };

    assert_eq!(redirect.error, LoginError::UnexpectedError);
    assert_eq!(session.get_user_id(), None);
}

#[test]
fn logout_route_flashes_only_for_authenticated_sessions() {
    let mut session = TypedSession::new();
    session.insert_user(42);
    let response = logout(&mut session);
    assert_eq!(response.status, 303);
    assert_eq!(response.location.as_deref(), Some("/login"));
    assert_eq!(
        response.flashes,
        vec!["You have successfully logged out.".to_string()]
    );
    assert_eq!(session.get_user_id(), None);

    let response = logout(&mut session);
    assert!(response.flashes.is_empty());
}

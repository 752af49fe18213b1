//! The login flow: validate the submitted credential, and on success renew
//! the session and bind the authenticated identity to it. Success redirects
//! to the dashboard; any failure redirects back to the login form carrying a
//! flash message that never says which half of the credential was wrong.

use crate::authentication::{validate_model, AuthError, Credential, CredentialStore};
use crate::http::{see_other, HttpResponse};
use crate::secret::{secret_str, SecretString};
use crate::session_state::TypedSession;
use vstd::prelude::*;

verus! {

/// The login form's fields.
pub struct FormData {
    pub username: String,
    pub password: SecretString,
}

/// Why a login attempt failed.
#[derive(Clone, Copy, PartialEq, Eq, Structural, Debug)]
pub enum LoginError {
    AuthError,
    UnexpectedError,
}

impl LoginError {
    /// The externally visible description: deliberately silent about whether
    /// the username or the password was wrong.
    pub fn message(&self) -> (r: &'static str)
        ensures
            *self == LoginError::AuthError ==> r@ == "Authentication Failed"@,
            *self == LoginError::UnexpectedError ==> r@ == "Something went wrong."@,
    {
        match self {
            LoginError::AuthError => "Authentication Failed",
            LoginError::UnexpectedError => "Something went wrong.",
        }
    }
}

/// A failed login's outcome: the error, and the response sending the caller
/// back to the login form with the failure flashed onto it.
pub struct LoginRedirect {
    pub error: LoginError,
    pub response: HttpResponse,
}

/// Builds the failure response for `error`: a redirect to the login form
/// flashing the error's message.
pub fn login_redirect(error: LoginError) -> (r: LoginRedirect)
    ensures
        r.error == error,
        r.response@.status == 303,
        r.response@.location == Some("/login"@),
        r.response@.flashes =~= seq![error.message_spec()],
{
    let message = error.message();
    let response = see_other("/login").with_flash(message.to_owned());
    LoginRedirect { error, response }
}

impl LoginError {
    /// The message `message` returns, available to contracts.
    pub open spec fn message_spec(&self) -> Seq<char> {
        match self {
            LoginError::AuthError => "Authentication Failed"@,
            LoginError::UnexpectedError => "Something went wrong."@,
        }
    }
}

/// Processes a login request. On a valid credential the session identifier
/// is renewed — never reused across the privilege change — the identity is
/// bound, and the caller is sent to the admin dashboard; otherwise the
/// session is untouched and the caller is sent back to the login form.
pub fn login(form: FormData, store: &CredentialStore, session: &mut TypedSession) -> (r: Result<
    HttpResponse,
    LoginRedirect,
>)
    requires
        old(session).epoch < u64::MAX,
    ensures
        match validate_model(
            store.users@,
            store.available,
            form.username@,
            secret_str(form.password),
        ) {
            Ok(user_id) => {
                &&& r matches Ok(resp) && resp@.status == 303 && resp@.location == Some(
                    "/admin/dashboard"@,
                )
                &&& final(session).user_id == Some(user_id)
                &&& final(session).epoch == old(session).epoch + 1
            },
            Err(e) => {
                &&& *final(session) == *old(session)
                &&& r matches Err(redirect) && redirect.error == (if e
                    == AuthError::InvalidCredentials {
                    LoginError::AuthError
                } else {
                    LoginError::UnexpectedError
                })
                &&& r matches Err(redirect) && redirect.response@.status == 303
                    && redirect.response@.location == Some("/login"@)
                    && redirect.response@.flashes =~= seq![redirect.error.message_spec()]
            },
        },
{
    let credential = Credential { username: form.username, password: form.password };

    match crate::authentication::validate_credential(credential, store) {
        Ok(user_id) => {
            session.renew();
            session.insert_user(user_id);
            Ok(see_other("/admin/dashboard"))
        },
        Err(e) => {
            let error = match e {
                AuthError::InvalidCredentials => LoginError::AuthError,
                AuthError::UnexpectedError => LoginError::UnexpectedError,
            };
            Err(login_redirect(error))
        },
    }
}

/// Logs the session out: an authenticated caller is unbound and told so by a
/// flash message; an anonymous caller is simply sent to the login form.
pub fn logout(session: &mut TypedSession) -> (r: HttpResponse)
    ensures
        final(session).user_id is None,
        final(session).epoch == old(session).epoch,
        r@.status == 303,
        r@.location == Some("/login"@),
        old(session).user_id is Some ==> r@.flashes =~= seq![
            "You have successfully logged out."@,
        ],
        old(session).user_id is None ==> r@.flashes.len() == 0,
{
    match session.get_user_id() {
        Some(_) => {
            session.logout();
            see_other("/login").with_flash("You have successfully logged out.".to_owned())
        },
        None => see_other("/login"),
    }
}

} // verus!

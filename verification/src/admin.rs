//! The password-change flow behind the admin area: re-check the caller's
//! current password, insist the two copies of the new password agree, then
//! rehash and store. Every outcome redirects back to the password form with a
//! flash message, except store failures, which surface as internal errors.

use crate::authentication::{
    cred_lookup_by_id,
    password_fits_hash_limit,
    phc_parses,
    phc_verifies,
    validate_model,
    AuthError,
    Credential,
    CredentialStore,
};
use crate::http::{e500, see_other, HttpResponse};
use crate::secret::{secret_str, SecretString};
use vstd::prelude::*;
use vstd::string::StrSliceExecFns;

verus! {

/// The password-change form's fields.
pub struct FormData {
    pub current_password: SecretString,
    pub new_password: SecretString,
    pub new_password_check: SecretString,
}

/// Changes the authenticated user's password.
///
/// The two copies of the new password must agree, the new password must be
/// short enough to hash, and the current password must validate; only then
/// is the stored hash replaced. The caller is already authenticated, so
/// `user_id` comes from the session.
pub fn change_password(user_id: u128, form: FormData, store: &mut CredentialStore) -> (r:
    HttpResponse)
    ensures
        secret_str(form.new_password) != secret_str(form.new_password_check) ==> {
            &&& final(store).users@ == old(store).users@
            &&& final(store).available == old(store).available
            &&& r@.status == 303
            &&& r@.location == Some("/admin/password"@)
            &&& r@.flashes =~= seq![
                "You entered two different new passwords - the field values must match."@,
            ]
        },
        secret_str(form.new_password) == secret_str(form.new_password_check)
            && !password_fits_hash_limit(secret_str(form.new_password)) ==> {
            &&& final(store).users@ == old(store).users@
            &&& r@.status == 500
        },
        secret_str(form.new_password) == secret_str(form.new_password_check)
            && password_fits_hash_limit(secret_str(form.new_password)) && !old(
            store,
        ).available ==> {
            &&& final(store).users@ == old(store).users@
            &&& r@.status == 500
        },
        secret_str(form.new_password) == secret_str(form.new_password_check)
            && password_fits_hash_limit(secret_str(form.new_password)) && old(
            store,
        ).available ==> match cred_lookup_by_id(old(store).users@, user_id) {
            None => final(store).users@ == old(store).users@ && r@.status == 500,
            Some(rec) => match validate_model(
                old(store).users@,
                true,
                rec.username@,
                secret_str(form.current_password),
            ) {
                Err(e) => {
                    &&& final(store).users@ == old(store).users@
                    &&& e == AuthError::InvalidCredentials ==> {
                        &&& r@.status == 303
                        &&& r@.location == Some("/admin/password"@)
                        &&& r@.flashes =~= seq!["You entered an invalid password."@]
                    }
                    &&& e == AuthError::UnexpectedError ==> r@.status == 500
                },
                Ok(_) => {
                    &&& r@.status == 303
                    &&& r@.location == Some("/admin/password"@)
                    &&& r@.flashes =~= seq!["Your password has been changed."@]
                    &&& final(store).available == old(store).available
                    &&& final(store).users@.len() == old(store).users@.len()
                    &&& forall|i: int|
                        0 <= i < old(store).users@.len() && old(store).users@[i].user_id != user_id
                            ==> final(store).users@[i] == old(store).users@[i]
                    &&& forall|i: int|
                        0 <= i < old(store).users@.len() && old(store).users@[i].user_id == user_id
                            ==> {
                            &&& final(store).users@[i].user_id == old(store).users@[i].user_id
                            &&& final(store).users@[i].username@ == old(store).users@[i].username@
                            &&& phc_parses(final(store).users@[i].password_hash@)
                            &&& phc_verifies(
                                final(store).users@[i].password_hash@,
                                secret_str(form.new_password),
                            )
                        }
                },
            },
        },
{
    if !crate::string_eq(form.new_password.expose_secret(), form.new_password_check.expose_secret())
    {
        return see_other("/admin/password").with_flash(
            "You entered two different new passwords - the field values must match.".to_owned(),
        );
    }

    if form.new_password.expose_secret().as_str().unicode_len() > 0x3FFF_FFFF {
        return e500(AuthError::UnexpectedError.message().to_owned());
    }

    let username = match crate::authentication::get_username(user_id, store) {
        Ok(name) => name,
        Err(e) => {
            return e500(e.message().to_owned());
        },
    };

    let credential = Credential { username, password: form.current_password };
    match crate::authentication::validate_credential(credential, store) {
        Ok(_) => {},
        Err(e) => {
            return match e {
                AuthError::InvalidCredentials => see_other("/admin/password").with_flash(
                    "You entered an invalid password.".to_owned(),
                ),
                AuthError::UnexpectedError => e500(e.message().to_owned()),
            };
        },
    }

    match crate::authentication::change_password(user_id, form.new_password, store) {
        Ok(()) => see_other("/admin/password").with_flash(
            "Your password has been changed.".to_owned(),
        ),
        Err(e) => e500(e.message().to_owned()),
    }
}

} // verus!

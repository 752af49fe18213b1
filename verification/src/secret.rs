//! Passwords and other sensitive strings travel through the service inside
//! `secrecy::Secret<String>`, which redacts them from debug output and zeroes
//! them on drop. Declaring that generic type to Verus is refused over its
//! external `Zeroize` bound, so [`SecretString`] holds the cell in an opaque
//! struct instead; `secret_str` names the string a given cell holds, and the
//! trusted accessors below relate the cell to that name.

use secrecy::ExposeSecret;
use vstd::prelude::*;

verus! {

/// An opaque cell around a sensitive string, backed by
/// `secrecy::Secret<String>`.
#[verifier::external_body]
pub struct SecretString {
    inner: secrecy::Secret<String>,
}

/// The string held inside a [`SecretString`] cell.
pub uninterp spec fn secret_str(s: SecretString) -> Seq<char>;

impl SecretString {
    /// Relies on `secrecy::Secret::new`: the returned cell holds exactly the
    /// given string.
    #[verifier::external_body]
    pub fn new(value: String) -> (r: SecretString)
        ensures
            secret_str(r) == value@,
    {
        SecretString { inner: secrecy::Secret::new(value) }
    }

    /// Relies on `secrecy::ExposeSecret::expose_secret`: hands back a
    /// reference to the string the cell holds.
    #[verifier::external_body]
    pub fn expose_secret(&self) -> (r: &String)
        ensures
            r@ == secret_str(*self),
    {
        self.inner.expose_secret()
    }

    /// Relies on `Clone` for `secrecy::Secret` (`String` is a
    /// `CloneableSecret`): the clone holds the same string.
    #[verifier::external_body]
    pub fn duplicate(&self) -> (r: SecretString)
        ensures
            secret_str(r) == secret_str(*self),
    {
        SecretString { inner: self.inner.clone() }
    }
}

} // verus!

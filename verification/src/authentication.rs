//! Credential validation and password management.
//!
//! Stored credentials live in a [`CredentialStore`]: the narrow gateway the
//! rest of the service sees, holding one PHC-format hash per user. Validation
//! looks the username up and verifies the candidate password with argon2; a
//! lookup miss still verifies against a fixed dummy hash so the work done —
//! and hence the response timing — does not reveal whether the username
//! exists. Unknown usernames and wrong passwords collapse into the one
//! [`AuthError::InvalidCredentials`] value.

use crate::secret::{secret_str, SecretString};
use argon2::{PasswordHasher, PasswordVerifier};
use vstd::prelude::*;

verus! {

/// Whether `password_hash::PasswordHash::new` accepts `phc` as a well-formed
/// PHC-format hash string; parsing is deterministic in the string alone.
pub uninterp spec fn phc_parses(phc: Seq<char>) -> bool;

/// Whether argon2's `PasswordVerifier::verify_password` accepts `password`
/// against the hash encoded by `phc`; the verifier recomputes the hash from
/// the salt and parameters carried inside `phc`, so the outcome is a function
/// of the two strings alone.
pub uninterp spec fn phc_verifies(phc: Seq<char>, password: Seq<char>) -> bool;

/// How a password check against a stored hash came out.
enum VerifyOutcome {
    Match,
    Mismatch,
    MalformedHash,
}

/// Relies on `password_hash::PasswordHash::new` (PHC parsing) and argon2's
/// `PasswordVerifier::verify_password` (deterministic recomputation against
/// the salt and parameters inside the hash string).
#[verifier::external_body]
fn argon2_verify(expected_phc: &String, candidate: &SecretString) -> (r: VerifyOutcome)
    ensures
        (r is MalformedHash) == !phc_parses(expected_phc@),
        (r is Match) == (phc_parses(expected_phc@) && phc_verifies(
            expected_phc@,
            secret_str(*candidate),
        )),
{
    let parsed = match argon2::PasswordHash::new(expected_phc.as_str()) {
        Ok(h) => h,
        Err(_) => return VerifyOutcome::MalformedHash,
    };
    let hasher = argon2::Argon2::new(
        argon2::Algorithm::Argon2id,
        argon2::Version::V0x13,
        argon2::Params::new(15000, 2, 1, None).unwrap(),
    );
    match hasher.verify_password(candidate.expose_secret().as_bytes(), &parsed) {
        Ok(()) => VerifyOutcome::Match,
        Err(_) => VerifyOutcome::Mismatch,
    }
}

/// Whether a password is short enough to hash: argon2 rejects passwords
/// longer than 2^32 - 1 bytes, and a character encodes to at most four
/// UTF-8 bytes, so this bound on characters keeps every admitted password
/// inside that limit.
pub open spec fn password_fits_hash_limit(password: Seq<char>) -> bool {
    password.len() <= 0x3FFF_FFFF
}

/// Relies on `password_hash::SaltString::generate` (fresh random salt) and
/// argon2's `PasswordHasher::hash_password`: the produced PHC string records
/// the salt and parameters used, parses back, and verifies against exactly
/// the password it was computed from. argon2 rejects passwords longer than
/// 2^32 - 1 bytes; a character encodes to at most four UTF-8 bytes, so the
/// bound on characters below keeps every admitted input inside that limit.
#[verifier::external_body]
fn argon2_hash(password: &SecretString) -> (r: String)
    requires
        password_fits_hash_limit(secret_str(*password)),
    ensures
        phc_parses(r@),
        phc_verifies(r@, secret_str(*password)),
{
    let salt = argon2::password_hash::SaltString::generate(rand::thread_rng());
    let hasher = argon2::Argon2::new(
        argon2::Algorithm::Argon2id,
        argon2::Version::V0x13,
        argon2::Params::new(15000, 2, 1, None).unwrap(),
    );
    hasher
        .hash_password(password.expose_secret().as_bytes(), &salt)
        .expect("argon2 hashing under fixed parameters")
        .to_string()
}

/// Why a credential was rejected. Wrong passwords and unknown usernames are
/// deliberately the same value: callers cannot tell them apart.
#[derive(Clone, Copy, PartialEq, Eq, Structural, Debug)]
pub enum AuthError {
    InvalidCredentials,
    UnexpectedError,
}

impl AuthError {
    /// The uniform, externally visible description of this failure.
    pub fn message(&self) -> (r: &'static str)
        ensures
            *self == AuthError::InvalidCredentials ==> r@ == "Invalid credentials."@,
            *self == AuthError::UnexpectedError ==> r@ == "Something went wrong."@,
    {
        match self {
            AuthError::InvalidCredentials => "Invalid credentials.",
            AuthError::UnexpectedError => "Something went wrong.",
        }
    }
}

/// A username and the password a caller supplied with it; constructed per
/// request and never stored.
pub struct Credential {
    pub username: String,
    pub password: SecretString,
}

/// One user's stored login data: an opaque identifier and the PHC-format
/// hash of their password.
pub struct StoredCredential {
    pub user_id: u128,
    pub username: String,
    pub password_hash: String,
}

/// The first stored credential carrying `username`, if any.
pub open spec fn cred_lookup(users: Seq<StoredCredential>, username: Seq<char>) -> Option<
    StoredCredential,
>
    decreases users.len(),
{
    if users.len() == 0 {
        None
    } else if users[0].username@ == username {
        Some(users[0])
    } else {
        cred_lookup(users.skip(1), username)
    }
}

/// The first stored credential carrying `user_id`, if any.
pub open spec fn cred_lookup_by_id(users: Seq<StoredCredential>, user_id: u128) -> Option<
    StoredCredential,
>
    decreases users.len(),
{
    if users.len() == 0 {
        None
    } else if users[0].user_id == user_id {
        Some(users[0])
    } else {
        cred_lookup_by_id(users.skip(1), user_id)
    }
}

/// The credential-store gateway: the set of stored users, plus whether the
/// backing store can currently be reached (an in-memory stand-in flips
/// `available` to exercise outage handling).
pub struct CredentialStore {
    pub users: Vec<StoredCredential>,
    pub available: bool,
}

impl CredentialStore {
    /// Usernames and user identifiers are unique across the store.
    pub open spec fn wf(&self) -> bool {
        forall|i: int, j: int|
            0 <= i < j < self.users@.len() ==> self.users@[i].username@ != self.users@[j].username@
                && self.users@[i].user_id != self.users@[j].user_id
    }

    /// An empty, reachable store.
    pub fn new() -> (r: CredentialStore)
        ensures
            r.users@.len() == 0,
            r.available,
            r.wf(),
    {
        CredentialStore { users: Vec::new(), available: true }
    }

    /// Looks the stored hash and identifier up by username, as the login
    /// flow's first step. An unreachable store is the only failure.
    pub fn get_credential(&self, username: &String) -> (r: Result<
        Option<(u128, String)>,
        AuthError,
    >)
        ensures
            !self.available ==> r == Err::<Option<(u128, String)>, AuthError>(
                AuthError::UnexpectedError,
            ),
            self.available ==> match cred_lookup(self.users@, username@) {
                Some(rec) => r matches Ok(Some(p)) && p.0 == rec.user_id && p.1@
                    == rec.password_hash@,
                None => r == Ok::<Option<(u128, String)>, AuthError>(None),
            },
    {
        if !self.available {
            return Err(AuthError::UnexpectedError);
        }
        proof {
            assert(self.users@.skip(0) =~= self.users@);
        }
        let mut i: usize = 0;
        #[verifier::loop_isolation(false)]
        while i < self.users.len()
            invariant
                i <= self.users.len(),
                cred_lookup(self.users@, username@) == cred_lookup(
                    self.users@.skip(i as int),
                    username@,
                ),
            decreases self.users.len() - i,
        {
            let rec = &self.users[i];
            proof {
                assert(self.users@.skip(i as int)[0] == self.users@[i as int]);
                assert(self.users@.skip(i as int).skip(1) =~= self.users@.skip(i + 1));
            }
            if crate::string_eq(&rec.username, username) {
                return Ok(Some((rec.user_id, rec.password_hash.clone())));
            }
            i = i + 1;
        }
        proof {
            assert(self.users@.skip(i as int).len() == 0);
        }
        Ok(None)
    }

    /// Hashes `password` under the fixed cost parameters and stores a new
    /// user with it. The caller supplies a fresh identifier and username,
    /// and a password short enough to hash (a machine limit of argon2).
    pub fn add_user(&mut self, user_id: u128, username: String, password: &SecretString) -> (r:
        Result<(), AuthError>)
        requires
            old(self).wf(),
            cred_lookup(old(self).users@, username@) is None,
            cred_lookup_by_id(old(self).users@, user_id) is None,
            password_fits_hash_limit(secret_str(*password)),
        ensures
            final(self).available == old(self).available,
            final(self).wf(),
            !old(self).available ==> r == Err::<(), AuthError>(AuthError::UnexpectedError)
                && final(self).users@ == old(self).users@,
            old(self).available ==> {
                &&& r == Ok::<(), AuthError>(())
                &&& final(self).users@.len() == old(self).users@.len() + 1
                &&& forall|i: int|
                    0 <= i < old(self).users@.len() ==> final(self).users@[i] == old(self).users@[i]
                &&& final(self).users@.last().user_id == user_id
                &&& final(self).users@.last().username@ == username@
                &&& phc_parses(final(self).users@.last().password_hash@)
                &&& phc_verifies(final(self).users@.last().password_hash@, secret_str(*password))
            },
    {
        if !self.available {
            return Err(AuthError::UnexpectedError);
        }
        let password_hash = argon2_hash(password);
        proof {
            lemma_lookup_none_means_absent(self.users@, username@);
            lemma_lookup_by_id_none_means_absent(self.users@, user_id);
        }
        self.users.push(StoredCredential { user_id, username, password_hash });
        Ok(())
    }
}

/// A lookup miss means no record carries the username.
proof fn lemma_lookup_none_means_absent(users: Seq<StoredCredential>, username: Seq<char>)
    requires
        cred_lookup(users, username) is None,
    ensures
        forall|i: int| 0 <= i < users.len() ==> users[i].username@ != username,
    decreases users.len(),
{
    if users.len() > 0 {
        lemma_lookup_none_means_absent(users.skip(1), username);
        assert forall|i: int| 0 <= i < users.len() implies users[i].username@ != username by {
            if i > 0 {
                assert(users.skip(1)[i - 1] == users[i]);
            }
        }
    }
}

/// A lookup-by-identifier miss means no record carries the identifier.
proof fn lemma_lookup_by_id_none_means_absent(users: Seq<StoredCredential>, user_id: u128)
    requires
        cred_lookup_by_id(users, user_id) is None,
    ensures
        forall|i: int| 0 <= i < users.len() ==> users[i].user_id != user_id,
    decreases users.len(),
{
    if users.len() > 0 {
        lemma_lookup_by_id_none_means_absent(users.skip(1), user_id);
        assert forall|i: int| 0 <= i < users.len() implies users[i].user_id != user_id by {
            if i > 0 {
                assert(users.skip(1)[i - 1] == users[i]);
            }
        }
    }
}

/// What credential validation returns, as a function of the store contents,
/// store reachability, and the supplied username and password.
pub open spec fn validate_model(
    users: Seq<StoredCredential>,
    available: bool,
    username: Seq<char>,
    password: Seq<char>,
) -> Result<u128, AuthError> {
    if !available {
        Err(AuthError::UnexpectedError)
    } else {
        match cred_lookup(users, username) {
            Some(rec) => if phc_parses(rec.password_hash@) && phc_verifies(
                rec.password_hash@,
                password,
            ) {
                Ok(rec.user_id)
            } else {
                Err(AuthError::InvalidCredentials)
            },
            None => Err(AuthError::InvalidCredentials),
        }
    }
}

/// The fixed, well-formed hash every lookup miss is verified against. It is
/// configuration — precomputed once, never a per-call derivation — and it
/// carries the same cost parameters as every stored hash, so the work done
/// on the unknown-username path is identical to the known-username path.
fn dummy_password_hash() -> String {
    "$argon2id$v=19$m=15000,t=2,p=1$q2H7blDoEhlAg6GIdphfuw$zukDLvZoRBmT7witHdI0QXW6NV4W0uwcW4Fh7hovsQA".to_owned()
}

/// Verifies a candidate password against a stored PHC-format hash. A hash
/// that fails to parse and a password that fails to verify surface the same
/// `InvalidCredentials`.
fn verify_password_hash(expected_password_hash: &SecretString, provided_password: &SecretString)
    -> (r: Result<(), AuthError>)
    ensures
        (r is Ok) == (phc_parses(secret_str(*expected_password_hash)) && phc_verifies(
            secret_str(*expected_password_hash),
            secret_str(*provided_password),
        )),
        r is Err ==> r == Err::<(), AuthError>(AuthError::InvalidCredentials),
{
    let phc = expected_password_hash.expose_secret();
    match argon2_verify(phc, provided_password) {
        VerifyOutcome::Match => Ok(()),
        VerifyOutcome::Mismatch => Err(AuthError::InvalidCredentials),
        VerifyOutcome::MalformedHash => Err(AuthError::InvalidCredentials),
    }
}

/// Validates `credential` against the store: the heart of the login flow.
///
/// Every reachable-store path performs exactly one argon2 verification — a
/// lookup miss verifies against the fixed dummy hash — so response timing
/// does not separate unknown usernames from wrong passwords, and both fail
/// with the same `InvalidCredentials` value.
pub fn validate_credential(credential: Credential, store: &CredentialStore) -> (r: Result<
    u128,
    AuthError,
>)
    ensures
        r == validate_model(
            store.users@,
            store.available,
            credential.username@,
            secret_str(credential.password),
        ),
{
    let mut user_id: Option<u128> = None;
    let mut expected_password_hash: SecretString = SecretString::new(dummy_password_hash());

    match store.get_credential(&credential.username) {
        Err(_) => {
            return Err(AuthError::UnexpectedError);
        },
        Ok(Some((stored_user_id, stored_password_hash))) => {
            user_id = Some(stored_user_id);
            expected_password_hash = SecretString::new(stored_password_hash);
        },
        Ok(None) => {},
    }

    let verified = verify_password_hash(&expected_password_hash, &credential.password);

    match user_id {
        Some(found) => match verified {
            Ok(()) => Ok(found),
            Err(e) => Err(e),
        },
        None => Err(AuthError::InvalidCredentials),
    }
}

/// Rehashes the user's password and stores the new hash, as the password
/// change flow's final step. Every record carrying `user_id` — at most one
/// in a well-formed store — receives the fresh hash; everything else is
/// untouched. The password must be short enough to hash (a machine limit of
/// argon2); the admin flow tests the length before calling.
pub fn change_password(user_id: u128, password: SecretString, store: &mut CredentialStore) -> (r:
    Result<(), AuthError>)
    requires
        password_fits_hash_limit(secret_str(password)),
    ensures
        final(store).available == old(store).available,
        !old(store).available ==> r == Err::<(), AuthError>(AuthError::UnexpectedError)
            && final(store).users@ == old(store).users@,
        old(store).available ==> {
            &&& r == Ok::<(), AuthError>(())
            &&& final(store).users@.len() == old(store).users@.len()
            &&& forall|i: int|
                0 <= i < old(store).users@.len() && old(store).users@[i].user_id != user_id
                    ==> final(store).users@[i] == old(store).users@[i]
            &&& forall|i: int|
                0 <= i < old(store).users@.len() && old(store).users@[i].user_id == user_id ==> {
                    &&& final(store).users@[i].user_id == old(store).users@[i].user_id
                    &&& final(store).users@[i].username@ == old(store).users@[i].username@
                    &&& phc_parses(final(store).users@[i].password_hash@)
                    &&& phc_verifies(final(store).users@[i].password_hash@, secret_str(password))
                }
        },
        old(store).wf() ==> final(store).wf(),
{
    if !store.available {
        return Err(AuthError::UnexpectedError);
    }
    let password_hash = argon2_hash(&password);
    let mut i: usize = 0;
    while i < store.users.len()
        invariant
            i <= store.users.len(),
            store.available == old(store).available,
            store.users@.len() == old(store).users@.len(),
            phc_parses(password_hash@),
            phc_verifies(password_hash@, secret_str(password)),
            forall|k: int|
                0 <= k < old(store).users@.len() && old(store).users@[k].user_id != user_id
                    ==> store.users@[k] == old(store).users@[k],
            forall|k: int|
                i <= k < old(store).users@.len() ==> store.users@[k] == old(store).users@[k],
            forall|k: int|
                0 <= k < i && old(store).users@[k].user_id == user_id ==> {
                    &&& store.users@[k].user_id == old(store).users@[k].user_id
                    &&& store.users@[k].username@ == old(store).users@[k].username@
                    &&& store.users@[k].password_hash@ == password_hash@
                },
        decreases store.users.len() - i,
    {
        if store.users[i].user_id == user_id {
            let updated = StoredCredential {
                user_id: store.users[i].user_id,
                username: store.users[i].username.clone(),
                password_hash: password_hash.clone(),
            };
            store.users.set(i, updated);
        }
        i = i + 1;
    }
    Ok(())
}

/// Fetches the username a user identifier belongs to.
pub fn get_username(user_id: u128, store: &CredentialStore) -> (r: Result<String, AuthError>)
    ensures
        !store.available ==> r == Err::<String, AuthError>(AuthError::UnexpectedError),
        store.available ==> match cred_lookup_by_id(store.users@, user_id) {
            Some(rec) => r matches Ok(name) && name@ == rec.username@,
            None => r == Err::<String, AuthError>(AuthError::UnexpectedError),
        },
{
    if !store.available {
        return Err(AuthError::UnexpectedError);
    }
    proof {
        assert(store.users@.skip(0) =~= store.users@);
    }
    let mut i: usize = 0;
    #[verifier::loop_isolation(false)]
    while i < store.users.len()
        invariant
            i <= store.users.len(),
            cred_lookup_by_id(store.users@, user_id) == cred_lookup_by_id(
                store.users@.skip(i as int),
                user_id,
            ),
        decreases store.users.len() - i,
    {
        proof {
            assert(store.users@.skip(i as int)[0] == store.users@[i as int]);
            assert(store.users@.skip(i as int).skip(1) =~= store.users@.skip(i + 1));
        }
        if store.users[i].user_id == user_id {
            return Ok(store.users[i].username.clone());
        }
        i = i + 1;
    }
    proof {
        assert(store.users@.skip(i as int).len() == 0);
    }
    Err(AuthError::UnexpectedError)
}

// ------------------------------------------------------------------
// Laws
// ------------------------------------------------------------------

/// Law: for every store and every password, validating an unknown username
/// fails with `InvalidCredentials` — the same value a wrong password for a
/// known username produces, so the two failures are indistinguishable.
pub proof fn lemma_unknown_username_fails_uniformly(
    users: Seq<StoredCredential>,
    unknown_username: Seq<char>,
    any_password: Seq<char>,
    known_username: Seq<char>,
    wrong_password: Seq<char>,
)
    requires
        cred_lookup(users, unknown_username) is None,
        match cred_lookup(users, known_username) {
            Some(rec) => !phc_verifies(rec.password_hash@, wrong_password),
            None => false,
        },
    ensures
        validate_model(users, true, unknown_username, any_password) == Err::<u128, AuthError>(
            AuthError::InvalidCredentials,
        ),
        validate_model(users, true, unknown_username, any_password) == validate_model(
            users,
            true,
            known_username,
            wrong_password,
        ),
{
}


/// Law: whenever the argon2 verification rejects the supplied password —
/// as it does for a wrong password or any mutation of the right one — and
/// for every unknown username, validation returns `InvalidCredentials`:
/// never a user identifier and never `UnexpectedError`. The rejection itself
/// is argon2's outcome, taken here as the hypothesis, since no contract
/// could soundly promise it.
pub proof fn lemma_rejected_password_fails(
    users: Seq<StoredCredential>,
    username: Seq<char>,
    password: Seq<char>,
)
    requires
        match cred_lookup(users, username) {
            Some(rec) => !phc_verifies(rec.password_hash@, password),
            None => true,
        },
    ensures
        validate_model(users, true, username, password) == Err::<u128, AuthError>(
            AuthError::InvalidCredentials,
        ),
{
}

/// Law: validating a correct (username, password) pair — one whose stored
/// hash parses and verifies against the password — returns exactly the
/// stored user's identifier.
pub proof fn lemma_correct_credential_validates(
    users: Seq<StoredCredential>,
    username: Seq<char>,
    password: Seq<char>,
)
    requires
        match cred_lookup(users, username) {
            Some(rec) => phc_parses(rec.password_hash@) && phc_verifies(
                rec.password_hash@,
                password,
            ),
            None => false,
        },
    ensures
        validate_model(users, true, username, password) == Ok::<u128, AuthError>(
            cred_lookup(users, username)->Some_0.user_id,
        ),
{
}

} // verus!

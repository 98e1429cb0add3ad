//! The credential verifier: checks a username/password pair against stored
//! PHC password hashes, with the same cost on every failure path so that an
//! unknown username is indistinguishable from a wrong password.

use vstd::prelude::*;
use vstd::string::StringExecFns;
use argon2::{Argon2, PasswordHasher, PasswordVerifier};
use crate::store::{Store, UserRow};

verus! {

/// A credential pair is valid when the first user row carrying the username
/// holds a usable hash that the password verifies against.
pub open spec fn credentials_valid(
    users: Seq<UserRow>,
    username: Seq<char>,
    password: Seq<char>,
) -> bool {
    exists|i: int|
        {
            &&& 0 <= i < users.len()
            &&& #[trigger] users[i].username@ == username
            &&& (forall|j: int| 0 <= j < i ==> #[trigger] users[j].username@ != username)
            &&& phc_usable(users[i].password_hash@)
            &&& phc_verifies(users[i].password_hash@, password)
        }
}

/// Why credential verification failed: the pair was wrong (safe to disclose
/// as a 401), or the system itself failed (a 500, details kept internal).
#[derive(Debug)]
pub enum AuthError {
    InvalidCredentials(String),
    UnexpectedError(String),
}

impl AuthError {
    /// What the caller may see: one fixed line for a credential failure,
    /// whatever its internal cause, so that responses do not leak which part
    /// of the pair was wrong.
    pub fn message(&self) -> (r: String)
        ensures
            self is InvalidCredentials ==> r@ == "Invalid credentials."@,
            self is UnexpectedError ==> r@ == "Something went wrong"@,
    {
        match self {
            AuthError::InvalidCredentials(_) => String::from_str("Invalid credentials."),
            AuthError::UnexpectedError(_) => String::from_str("Something went wrong"),
        }
    }
}

/// A username/password pair as submitted by a caller.
#[derive(Debug)]
pub struct Credentials {
    pub username: String,
    pub password: String,
}

/// Whether a stored string parses as a PHC hash that the argon2 verifier can
/// use. A function of the characters alone.
pub uninterp spec fn phc_usable(hash: Seq<char>) -> bool;

/// Whether a password matches a usable PHC hash under argon2 verification.
/// A function of the two strings alone.
pub uninterp spec fn phc_verifies(hash: Seq<char>, password: Seq<char>) -> bool;

/// How one argon2 verification attempt ended.
#[derive(Clone, Copy, Debug)]
enum PhcCheck {
    /// The hash is usable and the password matches.
    Match,
    /// The hash is usable and the password does not match.
    NoMatch,
    /// The stored hash could not be parsed or used.
    BadHash,
}

/// Relies on argon2's `PasswordVerifier::verify_password` for `str` hashes,
/// which parses the PHC string and re-computes the hash of the candidate:
/// a deterministic function of the two strings. A `PasswordInvalid` error is
/// a mismatch; any other error means the stored hash is unusable.
#[verifier::external_body]
fn argon2_verify(expected_hash: &str, password_candidate: &str) -> (r: PhcCheck)
    ensures
        (r is Match) == (phc_usable(expected_hash@) && phc_verifies(expected_hash@, password_candidate@)),
        (r is NoMatch) == (phc_usable(expected_hash@) && !phc_verifies(expected_hash@, password_candidate@)),
        (r is BadHash) == !phc_usable(expected_hash@),
{
    match Argon2::default().verify_password(password_candidate.as_bytes(), expected_hash) {
        Ok(()) => PhcCheck::Match,
        Err(argon2::password_hash::Error::PasswordInvalid) => PhcCheck::NoMatch,
        Err(_) => PhcCheck::BadHash,
    }
}

/// Relies on argon2's `PasswordHasher::hash_password`, which draws a random
/// salt from the operating system and renders the hash as a PHC string;
/// nothing is promised of the randomly salted value.
#[verifier::external_body]
fn hash_password_phc(password: &str) -> (r: Option<String>) {
    match Argon2::default().hash_password(password.as_bytes()) {
        Ok(h) => Some(h.to_string()),
        Err(_) => None,
    }
}

/// The fixed, pre-computed hash verified against when no user row matches,
/// so that the unknown-username path performs the same work as the
/// wrong-password path.
pub open spec fn dummy_password_hash() -> Seq<char> {
    "$argon2id$v=19$m=15000,t=2,p=1$gZiV/M1gPc22ElAH/Jh1Hw$CWOrkoo7oJBQ/iyh7uJ0LO2aLEfrHwTWllSAxT0zRno"@
}

fn dummy_password_hash_string() -> (r: String)
    ensures
        r@ == dummy_password_hash(),
{
    String::from_str(
        "$argon2id$v=19$m=15000,t=2,p=1$gZiV/M1gPc22ElAH/Jh1Hw$CWOrkoo7oJBQ/iyh7uJ0LO2aLEfrHwTWllSAxT0zRno",
    )
}

/// One full hash verification, classified: a mismatch and an unusable stored
/// hash are both credential failures, as the verifier's callers must not be
/// able to tell them apart.
fn verify_password_hash(expected_password_hash: &String, password_candidate: &String) -> (r:
    Result<(), AuthError>)
    ensures
        r is Ok <==> phc_usable(expected_password_hash@) && phc_verifies(
            expected_password_hash@,
            password_candidate@,
        ),
        r matches Err(e) ==> e is InvalidCredentials,
{
    match argon2_verify(expected_password_hash.as_str(), password_candidate.as_str()) {
        PhcCheck::Match => Ok(()),
        PhcCheck::NoMatch => Err(
            AuthError::InvalidCredentials(String::from_str("invalid password")),
        ),
        PhcCheck::BadHash => Err(
            AuthError::InvalidCredentials(
                String::from_str("failed to parse hash in PHC string format"),
            ),
        ),
    }
}

/// Validates a credential pair against the users table. The first row whose
/// username matches supplies the expected hash; when none does, the fixed
/// dummy hash is verified instead, so both failure paths perform exactly one
/// full hash verification. Success yields the matched user's identifier and
/// is owed exactly when such a row exists, its stored hash is usable, and
/// the password matches; every failure is classified as invalid credentials.
pub fn validate_credentials(credentials: &Credentials, store: &Store) -> (r: Result<
    u128,
    AuthError,
>)
    ensures
        r is Ok <==> credentials_valid(store.users@, credentials.username@, credentials.password@),
        r matches Ok(uid) ==> exists|i: int|
            {
                &&& 0 <= i < store.users@.len()
                &&& #[trigger] store.users@[i].username@ == credentials.username@
                &&& store.users@[i].user_id == uid
            },
        r matches Err(e) ==> e is InvalidCredentials,
{
    // Select the expected hash first, falling back to the fixed dummy, so
    // that the one verification below runs whether or not the username
    // matched a row.
    let (user_id, expected_password_hash) = match store.get_stored_credentials(
        &credentials.username,
    ) {
        Some((stored_user_id, stored_password_hash)) => (Some(stored_user_id), stored_password_hash),
        None => (None, dummy_password_hash_string()),
    };
    let verification = verify_password_hash(&expected_password_hash, &credentials.password);
    match (user_id, verification) {
        (Some(user_id), Ok(())) => Ok(user_id),
        (None, _) => Err(AuthError::InvalidCredentials(String::from_str("unknown username"))),
        (Some(_), Err(e)) => Err(e),
    }
}

/// Replaces a user's stored password hash with a freshly salted hash of the
/// new password. The rows of every other table, and every other user row,
/// are untouched; a missing user or a failed hash computation changes
/// nothing.
pub fn change_password(store: &mut Store, user_id: u128, new_password: &String) -> (r: Result<
    (),
    AuthError,
>)
    requires
        old(store).wf(),
    ensures
        final(store).wf(),
        final(store).subscribers@ == old(store).subscribers@,
        final(store).tokens@ == old(store).tokens@,
        r is Err ==> final(store).users@ == old(store).users@,
        r matches Err(e) ==> e is UnexpectedError,
        !crate::store::has_user_id(old(store).users@, user_id) ==> r is Err,
        r is Ok ==> exists|i: int|
            {
                &&& 0 <= i < old(store).users@.len()
                &&& #[trigger] old(store).users@[i].user_id == user_id
                &&& final(store).users@.len() == old(store).users@.len()
                &&& (forall|j: int|
                    0 <= j < old(store).users@.len() && j != i ==> final(store).users@[j] == old(
                        store,
                    ).users@[j])
                &&& final(store).users@[i].user_id == user_id
                &&& final(store).users@[i].username@ == old(store).users@[i].username@
            },
{
    let new_hash = match hash_password_phc(new_password.as_str()) {
        Some(h) => h,
        None => {
            return Err(AuthError::UnexpectedError(String::from_str("failed to hash password")));
        },
    };
    match store.update_password_hash(user_id, new_hash) {
        Ok(()) => Ok(()),
        Err(e) => Err(AuthError::UnexpectedError(e.message())),
    }
}

} // verus!

//! The login handler's decision: validate the submitted pair and choose
//! where the browser goes next.

use vstd::prelude::*;
use vstd::string::StringExecFns;
use crate::authentication::{AuthError, Credentials, credentials_valid, validate_credentials};
use crate::store::Store;

verus! {

/// The fields of the login form.
#[derive(Debug)]
pub struct FormData {
    pub username: String,
    pub password: String,
}

/// Why a login attempt failed.
#[derive(Debug)]
pub enum LoginError {
    AuthError(String),
    UnexpectedError(String),
}

impl LoginError {
    /// What the next page render may show.
    pub fn message(&self) -> (r: String)
        ensures
            self is AuthError ==> r@ == "Authentication failed"@,
            self is UnexpectedError ==> r@ == "Something went wrong"@,
    {
        match self {
            LoginError::AuthError(_) => String::from_str("Authentication failed"),
            LoginError::UnexpectedError(_) => String::from_str("Something went wrong"),
        }
    }
}

/// What the login response does: start an authenticated session and go to
/// the dashboard, or carry one error line back to the login form.
#[derive(Debug)]
pub enum LoginOutcome {
    /// The pair validated: rotate the session identifier, store this user
    /// identifier in the session, and redirect to the admin dashboard.
    Success(u128),
    /// The pair did not validate: flash this message, tamper-proof to the
    /// client, and redirect back to the login form.
    Failure(String),
}

/// Decides one login request. Success is owed exactly when the pair
/// validates against the users table; the failure message never says which
/// part of the pair was wrong.
pub fn login(store: &Store, form: &FormData) -> (r: LoginOutcome)
    ensures
        r is Success <==> credentials_valid(store.users@, form.username@, form.password@),
        r matches LoginOutcome::Success(uid) ==> exists|i: int|
            {
                &&& 0 <= i < store.users@.len()
                &&& #[trigger] store.users@[i].username@ == form.username@
                &&& store.users@[i].user_id == uid
            },
        r matches LoginOutcome::Failure(m) ==> m@ == "Authentication failed"@,
{
    let credentials = Credentials {
        username: form.username.clone(),
        password: form.password.clone(),
    };
    match validate_credentials(&credentials, store) {
        Ok(user_id) => LoginOutcome::Success(user_id),
        Err(e) => {
            let error = match e {
                AuthError::InvalidCredentials(m) => LoginError::AuthError(m),
                AuthError::UnexpectedError(m) => LoginError::UnexpectedError(m),
            };
            LoginOutcome::Failure(error.message())
        },
    }
}

} // verus!

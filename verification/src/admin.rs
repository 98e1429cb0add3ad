//! The admin flows behind the session gate: the dashboard's username
//! lookup, the session-authenticated newsletter publish, and the password
//! change.

use vstd::prelude::*;
use vstd::string::StringExecFns;
use crate::authentication::{self, AuthError, Credentials, credentials_valid};
use crate::email::EmailRequest;
use crate::newsletters::{delivery_plan, valid_recipients};
use crate::store::{Store, confirmed_emails, has_user_id};

verus! {

/// The fields of the admin newsletter form.
#[derive(Debug)]
pub struct FormData {
    pub title: String,
    pub content_html: String,
    pub content_txt: String,
}

/// Why an admin publish request failed.
#[derive(Debug)]
pub enum PublishError {
    AuthError(String),
    UnexpectedError(String),
}

impl PublishError {
    /// The HTTP status the response carries: 401 with a challenge for an
    /// authentication failure, 500 for an internal fault.
    pub fn status_code(&self) -> (r: u16)
        ensures
            self is AuthError ==> r == 401,
            self is UnexpectedError ==> r == 500,
    {
        match self {
            PublishError::AuthError(_) => 401,
            PublishError::UnexpectedError(_) => 500,
        }
    }
}

/// The dashboard's lookup of the logged-in user's name; a missing row is a
/// fault, not a normal outcome, since the session named the identifier.
pub fn get_username(user_id: u128, store: &Store) -> (r: Result<String, String>)
    ensures
        r is Ok <==> has_user_id(store.users@, user_id),
        r matches Ok(u) ==> exists|i: int|
            0 <= i < store.users@.len() && #[trigger] store.users@[i].user_id == user_id
                && store.users@[i].username@ == u@,
        r matches Err(m) ==> m@ == "User not found."@,
{
    match store.get_username(user_id) {
        Some(u) => Ok(u),
        None => Err(String::from_str("User not found.")),
    }
}

/// Publishes one newsletter issue for a caller the session middleware
/// already authenticated: one send request per confirmed, validly addressed
/// subscriber, in table order, carrying the form's title and bodies.
pub fn publish_newsletter(_user_id: u128, store: &Store, body: &FormData) -> (r: Vec<EmailRequest>)
    ensures
        r@.len() == valid_recipients(confirmed_emails(store.subscribers@)).len(),
        forall|i: int|
            0 <= i < r@.len() ==> {
                &&& (#[trigger] r@[i]).recipient@ == valid_recipients(
                    confirmed_emails(store.subscribers@),
                )[i]
                &&& r@[i].subject@ == body.title@
                &&& r@[i].html_body@ == body.content_html@
                &&& r@[i].text_body@ == body.content_txt@
            },
{
    delivery_plan(store, &body.title, &body.content_html, &body.content_txt)
}

/// The fields of the change-password form.
#[derive(Debug)]
pub struct PasswordFormData {
    pub current_password: String,
    pub new_password: String,
    pub new_password_check: String,
}

/// How a change-password request ended; each case names the redirect and
/// flash the response carries.
#[derive(Debug)]
pub enum ChangePasswordOutcome {
    /// No user in the session: redirect to the login form.
    NotLoggedIn,
    /// The two new passwords differ: flash the mismatch and redirect back.
    MismatchedNewPasswords,
    /// The current password failed verification: flash and redirect back.
    InvalidCurrentPassword,
    /// The stored hash was replaced with a hash of the new password.
    Changed,
    /// An internal fault, surfaced generically.
    Failed(String),
}

/// Changes the logged-in user's password: the two new entries must match
/// and the current password must verify before the stored hash is replaced.
/// Only the `Changed` outcome writes anything, and it touches exactly the
/// caller's user row.
pub fn change_password(store: &mut Store, user_id: Option<u128>, form: PasswordFormData) -> (r:
    ChangePasswordOutcome)
    requires
        old(store).wf(),
    ensures
        final(store).wf(),
        final(store).subscribers@ == old(store).subscribers@,
        final(store).tokens@ == old(store).tokens@,
        !(r is Changed) ==> final(store).users@ == old(store).users@,
        r is NotLoggedIn <==> user_id is None,
        r is MismatchedNewPasswords <==> (user_id is Some && form.new_password@
            != form.new_password_check@),
        r is InvalidCurrentPassword ==> (user_id matches Some(uid) && exists|i: int|
            {
                &&& 0 <= i < old(store).users@.len()
                &&& #[trigger] old(store).users@[i].user_id == uid
                &&& !credentials_valid(
                    old(store).users@,
                    old(store).users@[i].username@,
                    form.current_password@,
                )
            }),
        r is Changed ==> (user_id matches Some(uid) && exists|i: int|
            {
                &&& 0 <= i < old(store).users@.len()
                &&& #[trigger] old(store).users@[i].user_id == uid
                &&& final(store).users@.len() == old(store).users@.len()
                &&& (forall|j: int|
                    0 <= j < old(store).users@.len() && j != i ==> final(store).users@[j] == old(
                        store,
                    ).users@[j])
                &&& final(store).users@[i].user_id == uid
                &&& final(store).users@[i].username@ == old(store).users@[i].username@
            }),
        user_id matches Some(uid) && form.new_password@ == form.new_password_check@ && !has_user_id(
            old(store).users@,
            uid,
        ) ==> r is Failed,
{
    let uid = match user_id {
        Some(uid) => uid,
        None => {
            return ChangePasswordOutcome::NotLoggedIn;
        },
    };
    if !form.new_password.eq(&form.new_password_check) {
        return ChangePasswordOutcome::MismatchedNewPasswords;
    }
    let username = match get_username(uid, store) {
        Ok(u) => u,
        Err(m) => {
            return ChangePasswordOutcome::Failed(m);
        },
    };
    let credentials = Credentials { username, password: form.current_password };
    match authentication::validate_credentials(&credentials, store) {
        Ok(_) => {},
        Err(e) => {
            return match e {
                AuthError::InvalidCredentials(_) => ChangePasswordOutcome::InvalidCurrentPassword,
                AuthError::UnexpectedError(m) => ChangePasswordOutcome::Failed(m),
            };
        },
    }
    match authentication::change_password(store, uid, &form.new_password) {
        Ok(()) => ChangePasswordOutcome::Changed,
        Err(e) => ChangePasswordOutcome::Failed(e.message()),
    }
}

} // verus!

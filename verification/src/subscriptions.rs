//! The subscription registrar: validates a form, persists the pending
//! subscriber and its confirmation token as one atomic unit, and hands the
//! confirmation email to the dispatcher.

use vstd::prelude::*;
use vstd::string::StringExecFns;
use rand::Rng;
use crate::domain::{NewSubscriber, SubscriberEmail, is_valid_email, valid_subscriber_name};
use crate::email::EmailRequest;
use crate::store::{Store, has_subscriber_email, has_subscriber_id, has_token};
use crate::strutil::push_char;

verus! {

/// The fields of the subscription form.
#[derive(Debug)]
pub struct FormData {
    pub email: String,
    pub name: String,
}

/// Why a subscription request failed: the input was rejected, or storage or
/// dispatch went wrong after validation.
#[derive(Debug)]
pub enum SubscribeError {
    ValidationError(String),
    UnexpectedError(String),
}

impl SubscribeError {
    /// The HTTP status the response carries: 400 for a rejected input, 500
    /// for an internal fault.
    pub fn status_code(&self) -> (r: u16)
        ensures
            self is ValidationError ==> r == 400,
            self is UnexpectedError ==> r == 500,
    {
        match self {
            SubscribeError::ValidationError(_) => 400,
            SubscribeError::UnexpectedError(_) => 500,
        }
    }

    /// The reason, for the response body.
    pub fn message(self) -> (r: String)
        ensures
            self matches SubscribeError::ValidationError(m) ==> r@ == m@,
            self matches SubscribeError::UnexpectedError(m) ==> r@ == m@,
    {
        match self {
            SubscribeError::ValidationError(m) => m,
            SubscribeError::UnexpectedError(m) => m,
        }
    }
}

/// An ASCII alphanumeric character.
pub open spec fn is_alnum_char(c: char) -> bool {
    ||| (48 <= c as u32 && c as u32 <= 57)
    ||| (65 <= c as u32 && c as u32 <= 90)
    ||| (97 <= c as u32 && c as u32 <= 122)
}

/// A subscription token: exactly 25 alphanumeric characters.
pub open spec fn is_subscription_token(s: Seq<char>) -> bool {
    s.len() == 25 && forall|i: int| 0 <= i < s.len() ==> is_alnum_char(#[trigger] s[i])
}

/// Relies on rand's `thread_rng` and `Rng::sample` with the `Alphanumeric`
/// distribution: one character drawn uniformly from a-z, A-Z and 0-9; nothing
/// more is promised of a random value.
#[verifier::external_body]
fn sample_alphanumeric() -> (c: char)
    ensures
        is_alnum_char(c),
{
    char::from(rand::thread_rng().sample(rand::distributions::Alphanumeric))
}

/// Relies on `uuid::Uuid::new_v4` and `Uuid::as_u128`: a randomly drawn
/// 128-bit identifier; nothing is promised of its value.
#[verifier::external_body]
fn generate_subscriber_id() -> u128 {
    uuid::Uuid::new_v4().as_u128()
}

/// Relies on `time::OffsetDateTime::now_utc` and `unix_timestamp`: the
/// clock's current reading; nothing is promised of its value.
#[verifier::external_body]
fn now_unix_timestamp() -> i64 {
    time::OffsetDateTime::now_utc().unix_timestamp()
}

/// A fresh 25-character token drawn from the alphanumeric alphabet.
pub fn generate_subscription_token() -> (r: String)
    ensures
        is_subscription_token(r@),
{
    let mut s = String::new();
    let mut i: usize = 0;
    while i < 25
        invariant
            i <= 25,
            s@.len() == i,
            forall|j: int| 0 <= j < i ==> is_alnum_char(#[trigger] s@[j]),
        decreases 25 - i,
    {
        let c = sample_alphanumeric();
        push_char(&mut s, c);
        i = i + 1;
    }
    s
}

/// The confirmation link embedding a token.
pub open spec fn confirmation_link(base_url: Seq<char>, token: Seq<char>) -> Seq<char> {
    base_url + "/subscriptions/confirm?subscription_token="@ + token
}

/// The plain-text body of the confirmation email.
pub open spec fn confirmation_plain_body(base_url: Seq<char>, token: Seq<char>) -> Seq<char> {
    "Welcome to our newsletter!\nVisit "@ + confirmation_link(base_url, token)
        + " to confirm your subscription."@
}

/// The HTML body of the confirmation email.
pub open spec fn confirmation_html_body(base_url: Seq<char>, token: Seq<char>) -> Seq<char> {
    "Welcome to our newsletter!<br />Click <a href=\""@ + confirmation_link(base_url, token)
        + "\">here</a> to confirm your subscription."@
}

/// Builds the confirmation email for a new subscriber: one send request whose
/// bodies embed the confirmation link carrying the token.
pub fn build_confirmation_email(base_url: &str, email: &SubscriberEmail, token: &str) -> (r:
    EmailRequest)
    ensures
        r.recipient@ == email@,
        r.subject@ == "Welcome!"@,
        r.html_body@ == confirmation_html_body(base_url@, token@),
        r.text_body@ == confirmation_plain_body(base_url@, token@),
{
    let mut link = String::from_str(base_url);
    link.append("/subscriptions/confirm?subscription_token=");
    link.append(token);
    assert(link@ =~= confirmation_link(base_url@, token@));
    let mut plain = String::from_str("Welcome to our newsletter!\nVisit ");
    plain.append(link.as_str());
    plain.append(" to confirm your subscription.");
    assert(plain@ =~= confirmation_plain_body(base_url@, token@));
    let mut html = String::from_str("Welcome to our newsletter!<br />Click <a href=\"");
    html.append(link.as_str());
    html.append("\">here</a> to confirm your subscription.");
    assert(html@ =~= confirmation_html_body(base_url@, token@));
    EmailRequest {
        recipient: String::from_str(email.as_str()),
        subject: String::from_str("Welcome!"),
        html_body: html,
        text_body: plain,
    }
}

/// Registers a subscriber with the given identifier, token and timestamp.
/// Validates the form first; a rejected input performs no storage write. On
/// success exactly one pending subscriber row and one token row are added, as
/// one atomic unit, and the confirmation email embedding the token comes
/// back for the dispatcher. Success is owed exactly when the form is valid
/// and the identifier, email and token are all fresh; any failure leaves the
/// store exactly as it was.
pub fn register_with(
    store: &mut Store,
    form: FormData,
    id: u128,
    token: String,
    now: i64,
    base_url: &str,
) -> (r: Result<EmailRequest, SubscribeError>)
    requires
        old(store).wf(),
    ensures
        final(store).wf(),
        (r matches Err(e) && e is ValidationError) <==> !(valid_subscriber_name(form.name@)
            && is_valid_email(form.email@)),
        !valid_subscriber_name(form.name@) ==> (r matches Err(
            SubscribeError::ValidationError(m),
        ) && m@ == form.name@ + " is not a valid subscriber name."@),
        valid_subscriber_name(form.name@) && !is_valid_email(form.email@) ==> (r matches Err(
            SubscribeError::ValidationError(m),
        ) && m@ == form.email@ + " is not a valid subscriber email."@),
        r is Ok <==> {
            &&& valid_subscriber_name(form.name@)
            &&& is_valid_email(form.email@)
            &&& !has_subscriber_id(old(store).subscribers@, id)
            &&& !has_subscriber_email(old(store).subscribers@, form.email@)
            &&& !has_token(old(store).tokens@, token@)
        },
        r is Err ==> final(store).subscribers@ == old(store).subscribers@ && final(store).tokens@
            == old(store).tokens@,
        final(store).users@ == old(store).users@,
        r matches Ok(req) ==> {
            &&& final(store).subscribers@.len() == old(store).subscribers@.len() + 1
            &&& final(store).subscribers@.drop_last() == old(store).subscribers@
            &&& final(store).subscribers@.last().id == id
            &&& final(store).subscribers@.last().email@ == form.email@
            &&& final(store).subscribers@.last().name@ == form.name@
            &&& final(store).subscribers@.last().subscribed_at == now
            &&& final(store).subscribers@.last().status is PendingConfirmation
            &&& final(store).tokens@.len() == old(store).tokens@.len() + 1
            &&& final(store).tokens@.drop_last() == old(store).tokens@
            &&& final(store).tokens@.last().subscription_token@ == token@
            &&& final(store).tokens@.last().subscriber_id == id
            &&& req.recipient@ == form.email@
            &&& req.subject@ == "Welcome!"@
            &&& req.html_body@ == confirmation_html_body(base_url@, token@)
            &&& req.text_body@ == confirmation_plain_body(base_url@, token@)
        },
{
    let new_subscriber = match NewSubscriber::parse(form.email, form.name) {
        Ok(n) => n,
        Err(m) => {
            return Err(SubscribeError::ValidationError(m));
        },
    };
    if store.token_exists(&token) {
        return Err(
            SubscribeError::UnexpectedError(
                String::from_str("failed to store the confirmation token for a new subscriber"),
            ),
        );
    }
    let req = build_confirmation_email(base_url, &new_subscriber.email, token.as_str());
    let email = new_subscriber.email.into_string();
    let name = new_subscriber.name.into_string();
    match store.insert_subscriber(id, email, name, now) {
        Ok(()) => {},
        Err(e) => {
            return Err(SubscribeError::UnexpectedError(e.message()));
        },
    }
    assert(has_subscriber_id(store.subscribers@, id)) by {
        assert(store.subscribers@.last().id == id);
    }
    match store.store_token(id, token) {
        Ok(()) => {},
        Err(_) => {
            proof {
                assert(false);
            }
        },
    }
    proof {
        assert(store.subscribers@.drop_last() =~= old(store).subscribers@);
        assert(store.tokens@.drop_last() =~= old(store).tokens@);
    }
    Ok(req)
}

/// Handles one subscription request end to end: validates the form, draws a
/// fresh identifier, timestamp and token, persists the pending subscriber and
/// the token atomically, and returns the confirmation email for the
/// dispatcher. The send happens after the rows are durable, so a failed send
/// leaves them committed.
pub fn subscribe(store: &mut Store, form: FormData, base_url: &str) -> (r: Result<
    EmailRequest,
    SubscribeError,
>)
    requires
        old(store).wf(),
    ensures
        final(store).wf(),
        (r matches Err(e) && e is ValidationError) <==> !(valid_subscriber_name(form.name@)
            && is_valid_email(form.email@)),
        r is Err ==> final(store).subscribers@ == old(store).subscribers@ && final(store).tokens@
            == old(store).tokens@,
        final(store).users@ == old(store).users@,
        r matches Ok(req) ==> {
            &&& final(store).subscribers@.len() == old(store).subscribers@.len() + 1
            &&& final(store).subscribers@.drop_last() == old(store).subscribers@
            &&& final(store).subscribers@.last().email@ == form.email@
            &&& final(store).subscribers@.last().name@ == form.name@
            &&& final(store).subscribers@.last().status is PendingConfirmation
            &&& final(store).tokens@.len() == old(store).tokens@.len() + 1
            &&& final(store).tokens@.drop_last() == old(store).tokens@
            &&& final(store).tokens@.last().subscriber_id == final(store).subscribers@.last().id
            &&& is_subscription_token(final(store).tokens@.last().subscription_token@)
            &&& req.recipient@ == form.email@
            &&& req.subject@ == "Welcome!"@
            &&& req.html_body@ == confirmation_html_body(
                base_url@,
                final(store).tokens@.last().subscription_token@,
            )
            &&& req.text_body@ == confirmation_plain_body(
                base_url@,
                final(store).tokens@.last().subscription_token@,
            )
        },
{
    let id = generate_subscriber_id();
    let token = generate_subscription_token();
    let now = now_unix_timestamp();
    register_with(store, form, id, token, now, base_url)
}

} // verus!

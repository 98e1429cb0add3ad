//! The newsletter publisher: authenticates the caller from a Basic
//! authorization header, re-validates each confirmed subscriber's stored
//! address, and produces one send request per valid confirmed subscriber.

use vstd::prelude::*;
use vstd::string::StrSliceExecFns;
use vstd::string::StringExecFns;
use vstd::utf8::{decode_utf8, valid_utf8};
use base64::Engine;
use crate::authentication::{AuthError, Credentials, credentials_valid, validate_credentials};
use crate::domain::{SubscriberEmail, is_valid_email};
use crate::email::EmailRequest;
use crate::store::{Store, SubscriberRow, confirm_rows, confirmed_emails};
use crate::strutil::find_char;

verus! {

/// The newsletter body: a title and its two content renderings.
#[derive(Debug)]
pub struct BodyData {
    pub title: String,
    pub content: Content,
}

/// The two renderings of a newsletter issue.
#[derive(Debug)]
pub struct Content {
    pub html: String,
    pub text: String,
}

/// Why a publish request failed: the caller could not be authenticated, or
/// the system itself failed.
#[derive(Debug)]
pub enum PublishError {
    AuthError(String),
    UnexpectedError(String),
}

impl PublishError {
    /// The HTTP status the response carries: 401 with a challenge for an
    /// authentication failure, 500 for an internal fault.
    pub fn status_code(&self) -> (r: u16)
        ensures
            self is AuthError ==> r == 401,
            self is UnexpectedError ==> r == 500,
    {
        match self {
            PublishError::AuthError(_) => 401,
            PublishError::UnexpectedError(_) => 500,
        }
    }

    /// What the caller may see.
    pub fn message(&self) -> (r: String)
        ensures
            self is AuthError ==> r@ == "Authentication failed"@,
            self is UnexpectedError ==> r@ == "something went wrong"@,
    {
        match self {
            PublishError::AuthError(_) => String::from_str("Authentication failed"),
            PublishError::UnexpectedError(_) => String::from_str("something went wrong"),
        }
    }
}

/// What a standard-alphabet base64 decode of the string yields, when it
/// decodes at all. A function of the characters alone.
pub uninterp spec fn b64_decoded(s: Seq<char>) -> Option<Seq<u8>>;

/// Relies on base64's `general_purpose::STANDARD` engine `decode`: a
/// deterministic function of the input characters.
#[verifier::external_body]
fn base64_decode_standard(s: &str) -> (r: Option<Vec<u8>>)
    ensures
        (r is Some) == (b64_decoded(s@) is Some),
        r matches Some(v) ==> b64_decoded(s@) matches Some(b) && v@ == b,
{
    match base64::engine::general_purpose::STANDARD.decode(s) {
        Ok(v) => Some(v),
        Err(_) => None,
    }
}

/// Relies on std's `String::from_utf8`: succeeds exactly on valid UTF-8 and
/// decodes the bytes to their characters.
#[verifier::external_body]
fn string_from_utf8(bytes: Vec<u8>) -> (r: Option<String>)
    ensures
        (r is Some) == valid_utf8(bytes@),
        r matches Some(s) ==> s@ == decode_utf8(bytes@),
{
    match String::from_utf8(bytes) {
        Ok(s) => Some(s),
        Err(_) => None,
    }
}

/// Whether the header value starts with the `Basic ` scheme marker.
pub open spec fn has_basic_prefix(s: Seq<char>) -> bool {
    s.len() >= 6 && s.subrange(0, 6) == "Basic "@
}

/// The username/password pair a Basic authorization header value carries:
/// the part after the scheme marker, base64-decoded, read as UTF-8, and
/// split at the first colon.
pub open spec fn basic_credentials(header: Seq<char>) -> Option<(Seq<char>, Seq<char>)> {
    if !has_basic_prefix(header) {
        None
    } else {
        match b64_decoded(header.skip(6)) {
            Option::None => None,
            Option::Some(bytes) => {
                if !valid_utf8(bytes) {
                    None
                } else {
                    let d = decode_utf8(bytes);
                    match d.index_of_first(':') {
                        Option::None => None,
                        Option::Some(i) => Option::Some((d.take(i), d.skip(i + 1))),
                    }
                }
            },
        }
    }
}

fn strip_basic_prefix(s: &str) -> (r: Option<&str>)
    ensures
        (r is Some) == has_basic_prefix(s@),
        r matches Some(rest) ==> rest@ == s@.skip(6),
{
    proof {
        reveal_strlit("Basic ");
    }
    let n = s.unicode_len();
    if n < 6 {
        return None;
    }
    if s.get_char(0) == 'B' && s.get_char(1) == 'a' && s.get_char(2) == 's' && s.get_char(3) == 'i'
        && s.get_char(4) == 'c' && s.get_char(5) == ' ' {
        proof {
            assert(s@.subrange(0, 6) =~= "Basic "@);
        }
        let rest = s.substring_char(6, n);
        proof {
            assert(rest@ =~= s@.skip(6));
        }
        Some(rest)
    } else {
        proof {
            if has_basic_prefix(s@) {
                assert(s@[0] == s@.subrange(0, 6)[0]);
                assert(s@[1] == s@.subrange(0, 6)[1]);
                assert(s@[2] == s@.subrange(0, 6)[2]);
                assert(s@[3] == s@.subrange(0, 6)[3]);
                assert(s@[4] == s@.subrange(0, 6)[4]);
                assert(s@[5] == s@.subrange(0, 6)[5]);
            }
        }
        None
    }
}

/// Reads a username/password pair out of a Basic authorization header
/// value, exactly as `basic_credentials` describes; each failure names its
/// stage.
pub fn basic_authentication(header: &String) -> (r: Result<Credentials, String>)
    ensures
        (r is Ok) == (basic_credentials(header@) is Some),
        r matches Ok(c) ==> basic_credentials(header@) matches Some(p) && c.username@ == p.0
            && c.password@ == p.1,
        !has_basic_prefix(header@) ==> (r matches Err(m) && m@
            == "The authorization scheme was not 'Basic'."@),
        has_basic_prefix(header@) && b64_decoded(header@.skip(6)) is None ==> (r matches Err(m)
            && m@ == "Failed to base64-decode 'Basic' credentials."@),
        has_basic_prefix(header@) && (b64_decoded(header@.skip(6)) matches Some(b)
            && !valid_utf8(b)) ==> (r matches Err(m) && m@
            == "The decoded credential string is not valid UTF8"@),
        has_basic_prefix(header@) && (b64_decoded(header@.skip(6)) matches Some(b) && valid_utf8(b)
            && decode_utf8(b).index_of_first(':') is None) ==> (r matches Err(m) && m@
            == "A password must be provided in 'Basic' auth."@),
{
    let rest = match strip_basic_prefix(header.as_str()) {
        Some(rest) => rest,
        None => {
            return Err(String::from_str("The authorization scheme was not 'Basic'."));
        },
    };
    let bytes = match base64_decode_standard(rest) {
        Some(b) => b,
        None => {
            return Err(String::from_str("Failed to base64-decode 'Basic' credentials."));
        },
    };
    let decoded = match string_from_utf8(bytes) {
        Some(s) => s,
        None => {
            return Err(String::from_str("The decoded credential string is not valid UTF8"));
        },
    };
    proof {
        decoded@.index_of_first_ensures(':');
    }
    let colon = match find_char(decoded.as_str(), ':') {
        Some(i) => i,
        None => {
            proof {
                assert(!decoded@.contains(':')) by {
                    assert(forall|j: int| 0 <= j < decoded@.len() ==> decoded@[j] != ':');
                }
            }
            return Err(String::from_str("A password must be provided in 'Basic' auth."));
        },
    };
    proof {
        assert(decoded@.contains(':')) by {
            assert(decoded@[colon as int] == ':');
        }
        let idx = decoded@.index_of_first(':').unwrap();
        assert(idx == colon) by {
            if idx < colon {
                assert(decoded@[idx] != ':');
            } else if idx > colon {
                assert(decoded@[colon as int] != ':');
            }
        }
    }
    let n = decoded.as_str().unicode_len();
    let username = String::from_str(decoded.as_str().substring_char(0, colon));
    let password = String::from_str(decoded.as_str().substring_char(colon + 1, n));
    proof {
        assert(username@ =~= decoded@.take(colon as int));
        assert(password@ =~= decoded@.skip(colon + 1));
    }
    Ok(Credentials { username, password })
}

/// The stored addresses of the confirmed subscribers that pass
/// re-validation, in table order: the recipients of one publish call.
pub open spec fn valid_recipients(emails: Seq<Seq<char>>) -> Seq<Seq<char>>
    decreases emails.len(),
{
    if emails.len() == 0 {
        Seq::empty()
    } else {
        let prefix = valid_recipients(emails.drop_last());
        if is_valid_email(emails.last()) {
            prefix.push(emails.last())
        } else {
            prefix
        }
    }
}

/// Loads the confirmed subscribers and re-validates each stored address
/// against the same syntax rule used at registration; a row that fails
/// re-validation becomes an error entry to be skipped, never a fatal fault.
pub fn get_confirmed_subscribers(store: &Store) -> (r: Vec<Result<SubscriberEmail, String>>)
    ensures
        r@.len() == confirmed_emails(store.subscribers@).len(),
        forall|i: int|
            0 <= i < r@.len() ==> {
                &&& ((#[trigger] r@[i]) is Ok <==> is_valid_email(
                    confirmed_emails(store.subscribers@)[i],
                ))
                &&& (r@[i] matches Ok(e) ==> e@ == confirmed_emails(store.subscribers@)[i])
            },
{
    let emails = store.get_confirmed_emails();
    let mut out: Vec<Result<SubscriberEmail, String>> = Vec::new();
    let n = emails.len();
    let mut i: usize = 0;
    while i < n
        invariant
            i <= n,
            n == emails@.len(),
            emails@.len() == confirmed_emails(store.subscribers@).len(),
            forall|k: int|
                0 <= k < n ==> #[trigger] emails@[k]@ == confirmed_emails(store.subscribers@)[k],
            out@.len() == i,
            forall|k: int|
                0 <= k < i ==> {
                    &&& ((#[trigger] out@[k]) is Ok <==> is_valid_email(
                        confirmed_emails(store.subscribers@)[k],
                    ))
                    &&& (out@[k] matches Ok(e) ==> e@ == confirmed_emails(store.subscribers@)[k])
                },
        decreases n - i,
    {
        let candidate = emails[i].clone();
        match SubscriberEmail::parse(candidate) {
            Ok(e) => out.push(Ok(e)),
            Err(m) => out.push(Err(m)),
        }
        i = i + 1;
    }
    out
}

/// Builds the delivery plan for one newsletter issue: one send request per
/// confirmed subscriber whose stored address passes re-validation, in table
/// order, each carrying the issue's title and bodies.
pub fn delivery_plan(store: &Store, title: &String, html: &String, text: &String) -> (r: Vec<
    EmailRequest,
>)
    ensures
        r@.len() == valid_recipients(confirmed_emails(store.subscribers@)).len(),
        forall|i: int|
            0 <= i < r@.len() ==> {
                &&& (#[trigger] r@[i]).recipient@ == valid_recipients(
                    confirmed_emails(store.subscribers@),
                )[i]
                &&& r@[i].subject@ == title@
                &&& r@[i].html_body@ == html@
                &&& r@[i].text_body@ == text@
            },
{
    let ghost ce = confirmed_emails(store.subscribers@);
    let subscribers = get_confirmed_subscribers(store);
    let mut plan: Vec<EmailRequest> = Vec::new();
    let n = subscribers.len();
    let mut i: usize = 0;
    while i < n
        invariant
            i <= n,
            n == subscribers@.len(),
            ce == confirmed_emails(store.subscribers@),
            n == ce.len(),
            forall|k: int|
                0 <= k < n ==> {
                    &&& ((#[trigger] subscribers@[k]) is Ok <==> is_valid_email(ce[k]))
                    &&& (subscribers@[k] matches Ok(e) ==> e@ == ce[k])
                },
            plan@.len() == valid_recipients(ce.subrange(0, i as int)).len(),
            forall|k: int|
                0 <= k < plan@.len() ==> {
                    &&& (#[trigger] plan@[k]).recipient@ == valid_recipients(
                        ce.subrange(0, i as int),
                    )[k]
                    &&& plan@[k].subject@ == title@
                    &&& plan@[k].html_body@ == html@
                    &&& plan@[k].text_body@ == text@
                },
        decreases n - i,
    {
        proof {
            assert(ce.subrange(0, i + 1 as int).drop_last() =~= ce.subrange(0, i as int));
            assert(ce.subrange(0, i + 1 as int).last() == ce[i as int]);
        }
        match &subscribers[i] {
            Ok(e) => {
                plan.push(
                    EmailRequest {
                        recipient: String::from_str(e.as_str()),
                        subject: title.clone(),
                        html_body: html.clone(),
                        text_body: text.clone(),
                    },
                );
            },
            Err(_) => {},
        }
        i = i + 1;
    }
    proof {
        assert(ce.subrange(0, n as int) =~= ce);
    }
    plan
}

/// Publishes one newsletter issue: authenticates the caller from the Basic
/// authorization header value through the credential verifier, then builds
/// one send request per confirmed, validly addressed subscriber. Success is
/// owed exactly when the header parses and the credential pair validates;
/// every failure is an authentication failure.
pub fn publish_newsletter(store: &Store, authorization_header: &String, body: &BodyData) -> (r:
    Result<Vec<EmailRequest>, PublishError>)
    ensures
        r is Ok <==> (basic_credentials(authorization_header@) matches Some(p)
            && credentials_valid(store.users@, p.0, p.1)),
        r matches Err(e) ==> e is AuthError,
        r matches Ok(reqs) ==> {
            &&& reqs@.len() == valid_recipients(confirmed_emails(store.subscribers@)).len()
            &&& forall|i: int|
                0 <= i < reqs@.len() ==> {
                    &&& (#[trigger] reqs@[i]).recipient@ == valid_recipients(
                        confirmed_emails(store.subscribers@),
                    )[i]
                    &&& reqs@[i].subject@ == body.title@
                    &&& reqs@[i].html_body@ == body.content.html@
                    &&& reqs@[i].text_body@ == body.content.text@
                }
        },
{
    let credentials = match basic_authentication(authorization_header) {
        Ok(c) => c,
        Err(m) => {
            return Err(PublishError::AuthError(m));
        },
    };
    match validate_credentials(&credentials, store) {
        Ok(_user_id) => {},
        Err(e) => {
            return Err(
                match e {
                    AuthError::InvalidCredentials(m) => PublishError::AuthError(m),
                    AuthError::UnexpectedError(m) => PublishError::UnexpectedError(m),
                },
            );
        },
    }
    Ok(delivery_plan(store, &body.title, &body.content.html, &body.content.text))
}

/// Every planned recipient is the re-validated address of some confirmed
/// subscriber row: a subscriber that never confirmed never receives a send
/// attempt.
pub proof fn lemma_delivery_only_confirmed(rows: Seq<SubscriberRow>, k: int)
    requires
        0 <= k < valid_recipients(confirmed_emails(rows)).len(),
    ensures
        exists|j: int|
            {
                &&& 0 <= j < rows.len()
                &&& (#[trigger] rows[j]).status is Confirmed
                &&& rows[j].email@ == valid_recipients(confirmed_emails(rows))[k]
                &&& is_valid_email(rows[j].email@)
            },
{
    lemma_valid_recipients_membership(confirmed_emails(rows), k);
    let i = choose|i: int|
        0 <= i < confirmed_emails(rows).len() && #[trigger] confirmed_emails(rows)[i]
            == valid_recipients(confirmed_emails(rows))[k] && is_valid_email(
            confirmed_emails(rows)[i],
        );
    lemma_confirmed_emails_membership(rows, i);
}

proof fn lemma_valid_recipients_membership(emails: Seq<Seq<char>>, k: int)
    requires
        0 <= k < valid_recipients(emails).len(),
    ensures
        exists|i: int|
            0 <= i < emails.len() && #[trigger] emails[i] == valid_recipients(emails)[k]
                && is_valid_email(emails[i]),
    decreases emails.len(),
{
    let prefix = valid_recipients(emails.drop_last());
    if is_valid_email(emails.last()) && k == prefix.len() {
        assert(emails[emails.len() - 1] == valid_recipients(emails)[k]);
    } else {
        lemma_valid_recipients_membership(emails.drop_last(), k);
        let i = choose|i: int|
            0 <= i < emails.drop_last().len() && #[trigger] emails.drop_last()[i]
                == valid_recipients(emails.drop_last())[k] && is_valid_email(
                emails.drop_last()[i],
            );
        assert(emails[i] == valid_recipients(emails)[k]);
    }
}

proof fn lemma_confirmed_emails_membership(rows: Seq<SubscriberRow>, i: int)
    requires
        0 <= i < confirmed_emails(rows).len(),
    ensures
        exists|j: int|
            0 <= j < rows.len() && (#[trigger] rows[j]).status is Confirmed && rows[j].email@
                == confirmed_emails(rows)[i],
    decreases rows.len(),
{
    let prefix = confirmed_emails(rows.drop_last());
    if rows.last().status is Confirmed && i == prefix.len() {
        assert(rows[rows.len() - 1].status is Confirmed);
        assert(rows[rows.len() - 1].email@ == confirmed_emails(rows)[i]);
    } else {
        lemma_confirmed_emails_membership(rows.drop_last(), i);
        let j = choose|j: int|
            0 <= j < rows.drop_last().len() && (#[trigger] rows.drop_last()[j]).status is Confirmed
                && rows.drop_last()[j].email@ == confirmed_emails(rows.drop_last())[i];
        assert(rows[j].status is Confirmed);
        assert(rows[j].email@ == confirmed_emails(rows)[i]);
    }
}

/// When no subscriber is confirmed, the publisher's query is empty, so a
/// publish call makes zero send attempts.
pub proof fn lemma_no_confirmed_no_delivery(rows: Seq<SubscriberRow>)
    requires
        forall|j: int| 0 <= j < rows.len() ==> !((#[trigger] rows[j]).status is Confirmed),
    ensures
        confirmed_emails(rows).len() == 0,
        valid_recipients(confirmed_emails(rows)).len() == 0,
    decreases rows.len(),
{
    if rows.len() > 0 {
        lemma_no_confirmed_no_delivery(rows.drop_last());
    }
}

/// The address of every confirmed subscriber row stands in the publisher's
/// confirmed-subscribers query.
pub proof fn lemma_confirmed_in_query(rows: Seq<SubscriberRow>, j: int)
    requires
        0 <= j < rows.len(),
        rows[j].status is Confirmed,
    ensures
        confirmed_emails(rows).contains(rows[j].email@),
    decreases rows.len(),
{
    if j == rows.len() - 1 {
        let ce = confirmed_emails(rows);
        assert(ce[ce.len() - 1] == rows[j].email@);
    } else {
        assert(rows.drop_last()[j] == rows[j]);
        lemma_confirmed_in_query(rows.drop_last(), j);
        let prefix = confirmed_emails(rows.drop_last());
        let w = choose|w: int| 0 <= w < prefix.len() && #[trigger] prefix[w] == rows[j].email@;
        assert(confirmed_emails(rows)[w] == rows[j].email@);
    }
}

/// Round trip: a subscriber confirmed through a valid token subsequently
/// appears in the confirmed-subscribers query the publisher uses.
pub proof fn lemma_confirm_then_query(rows: Seq<SubscriberRow>, id: u128, j: int)
    requires
        0 <= j < rows.len(),
        rows[j].id == id,
    ensures
        confirmed_emails(confirm_rows(rows, id)).contains(rows[j].email@),
{
    let rows2 = confirm_rows(rows, id);
    assert(rows2[j].status is Confirmed);
    assert(rows2[j].email@ == rows[j].email@);
    lemma_confirmed_in_query(rows2, j);
}

} // verus!

//! Validated domain types: subscriber names and email addresses.

use vstd::prelude::*;
use vstd::string::StrSliceExecFns;
use vstd::string::StringExecFns;
use unicode_segmentation::UnicodeSegmentation;
use validator::ValidateEmail;

verus! {

/// The number of extended grapheme clusters in a string, as the
/// unicode-segmentation crate counts them. A function of the characters alone.
pub uninterp spec fn graphemes_of(s: Seq<char>) -> nat;

/// Whether a string passes the HTML5-style email syntax check of the
/// validator crate. A function of the characters alone.
pub uninterp spec fn is_valid_email(s: Seq<char>) -> bool;

/// Relies on `UnicodeSegmentation::graphemes(true).count()` of the
/// unicode-segmentation crate: counts extended grapheme clusters, a
/// deterministic function of the characters alone.
#[verifier::external_body]
fn count_graphemes(s: &str) -> (n: usize)
    ensures
        n as nat == graphemes_of(s@),
{
    s.graphemes(true).count()
}

/// Relies on `ValidateEmail::validate_email` of the validator crate for
/// `String`: an email syntax check following the HTML5 specification, a
/// deterministic function of the characters alone.
#[verifier::external_body]
fn email_is_valid(s: &String) -> (r: bool)
    ensures
        r == is_valid_email(s@),
{
    s.validate_email()
}

/// The Unicode White_Space characters, the set std documents for
/// `char::is_whitespace`.
pub open spec fn is_ws_char(c: char) -> bool {
    ||| c == ' '
    ||| c == '\t'
    ||| c == '\n'
    ||| c == '\u{0B}'
    ||| c == '\u{0C}'
    ||| c == '\r'
    ||| c == '\u{85}'
    ||| c == '\u{A0}'
    ||| c == '\u{1680}'
    ||| (0x2000 <= c as u32 && c as u32 <= 0x200A)
    ||| c == '\u{2028}'
    ||| c == '\u{2029}'
    ||| c == '\u{202F}'
    ||| c == '\u{205F}'
    ||| c == '\u{3000}'
}

fn is_whitespace_char(c: char) -> (r: bool)
    ensures
        r == is_ws_char(c),
{
    c == ' ' || c == '\t' || c == '\n' || c == '\u{0B}' || c == '\u{0C}' || c == '\r'
        || c == '\u{85}' || c == '\u{A0}' || c == '\u{1680}'
        || ((c as u32) >= 0x2000 && (c as u32) <= 0x200A) || c == '\u{2028}' || c == '\u{2029}'
        || c == '\u{202F}' || c == '\u{205F}' || c == '\u{3000}'
}

/// The characters a subscriber name must not contain.
pub open spec fn is_forbidden_char(c: char) -> bool {
    ||| c == '/'
    ||| c == '('
    ||| c == ')'
    ||| c == '"'
    ||| c == '<'
    ||| c == '>'
    ||| c == '\\'
    ||| c == '{'
    ||| c == '}'
}

fn is_forbidden(c: char) -> (r: bool)
    ensures
        r == is_forbidden_char(c),
{
    c == '/' || c == '(' || c == ')' || c == '"' || c == '<' || c == '>' || c == '\\' || c == '{'
        || c == '}'
}

/// True when every character is whitespace; an empty string trims to empty,
/// so this also covers the empty case.
pub open spec fn all_whitespace(s: Seq<char>) -> bool {
    forall|i: int| 0 <= i < s.len() ==> is_ws_char(#[trigger] s[i])
}

/// True when some character is in the forbidden set.
pub open spec fn has_forbidden_char(s: Seq<char>) -> bool {
    exists|i: int| 0 <= i < s.len() && is_forbidden_char(#[trigger] s[i])
}

/// A subscriber display name is valid when it is not empty or whitespace-only,
/// spans at most 256 grapheme clusters, and holds no forbidden character.
pub open spec fn valid_subscriber_name(s: Seq<char>) -> bool {
    &&& !all_whitespace(s)
    &&& graphemes_of(s) <= 256
    &&& !has_forbidden_char(s)
}

fn all_chars_whitespace(s: &str) -> (r: bool)
    ensures
        r == all_whitespace(s@),
{
    let n = s.unicode_len();
    let mut i: usize = 0;
    while i < n
        invariant
            i <= n,
            n == s@.len(),
            forall|j: int| 0 <= j < i ==> is_ws_char(#[trigger] s@[j]),
        decreases n - i,
    {
        if !is_whitespace_char(s.get_char(i)) {
            return false;
        }
        i = i + 1;
    }
    true
}

fn any_char_forbidden(s: &str) -> (r: bool)
    ensures
        r == has_forbidden_char(s@),
{
    let n = s.unicode_len();
    let mut i: usize = 0;
    while i < n
        invariant
            i <= n,
            n == s@.len(),
            forall|j: int| 0 <= j < i ==> !is_forbidden_char(#[trigger] s@[j]),
        decreases n - i,
    {
        if is_forbidden(s.get_char(i)) {
            return true;
        }
        i = i + 1;
    }
    false
}

/// A subscriber display name that passed validation.
#[derive(Debug)]
pub struct SubscriberName(String);

impl Clone for SubscriberName {
    /// The copy carries the same characters.
    fn clone(&self) -> (r: Self)
        ensures
            r@ == self@,
    {
        SubscriberName(self.0.clone())
    }
}

impl View for SubscriberName {
    type V = Seq<char>;

    closed spec fn view(&self) -> Seq<char> {
        self.0@
    }
}

impl SubscriberName {
    /// Accepts the input exactly when it is a valid subscriber name; a
    /// rejected input comes back as an explanatory message.
    pub fn parse(s: String) -> (r: Result<SubscriberName, String>)
        ensures
            r is Ok <==> valid_subscriber_name(s@),
            r matches Ok(n) ==> n@ == s@,
            r matches Err(m) ==> m@ == s@ + " is not a valid subscriber name."@,
    {
        let is_empty_or_whitespace = all_chars_whitespace(s.as_str());
        let is_too_long = count_graphemes(s.as_str()) > 256;
        let contains_forbidden_characters = any_char_forbidden(s.as_str());
        if is_empty_or_whitespace || is_too_long || contains_forbidden_characters {
            Err(s.concat(" is not a valid subscriber name."))
        } else {
            Ok(SubscriberName(s))
        }
    }

    /// The validated name as a string slice.
    pub fn as_str(&self) -> (r: &str)
        ensures
            r@ == self@,
    {
        self.0.as_str()
    }

    /// The validated name as an owned string.
    pub fn into_string(self) -> (r: String)
        ensures
            r@ == self@,
    {
        self.0
    }
}

/// A subscriber email address that passed the syntax check.
#[derive(Debug)]
pub struct SubscriberEmail(String);

impl Clone for SubscriberEmail {
    /// The copy carries the same characters.
    fn clone(&self) -> (r: Self)
        ensures
            r@ == self@,
    {
        SubscriberEmail(self.0.clone())
    }
}

impl View for SubscriberEmail {
    type V = Seq<char>;

    closed spec fn view(&self) -> Seq<char> {
        self.0@
    }
}

impl SubscriberEmail {
    /// Accepts the input exactly when it passes the email syntax check; a
    /// rejected input comes back as an explanatory message.
    pub fn parse(s: String) -> (r: Result<SubscriberEmail, String>)
        ensures
            r is Ok <==> is_valid_email(s@),
            r matches Ok(e) ==> e@ == s@,
            r matches Err(m) ==> m@ == s@ + " is not a valid subscriber email."@,
    {
        if email_is_valid(&s) {
            Ok(SubscriberEmail(s))
        } else {
            Err(s.concat(" is not a valid subscriber email."))
        }
    }

    /// The validated address as a string slice.
    pub fn as_str(&self) -> (r: &str)
        ensures
            r@ == self@,
    {
        self.0.as_str()
    }

    /// The validated address as an owned string.
    pub fn into_string(self) -> (r: String)
        ensures
            r@ == self@,
    {
        self.0
    }
}

/// A fully validated registration request.
#[derive(Debug)]
pub struct NewSubscriber {
    pub email: SubscriberEmail,
    pub name: SubscriberName,
}

impl Clone for NewSubscriber {
    /// The copy carries the same address and name.
    fn clone(&self) -> (r: Self)
        ensures
            r.email@ == self.email@,
            r.name@ == self.name@,
    {
        NewSubscriber { email: self.email.clone(), name: self.name.clone() }
    }
}

impl NewSubscriber {
    /// Validates the name first, then the email, as registration does.
    pub fn parse(email: String, name: String) -> (r: Result<NewSubscriber, String>)
        ensures
            r is Ok <==> valid_subscriber_name(name@) && is_valid_email(email@),
            r matches Ok(n) ==> n.email@ == email@ && n.name@ == name@,
            !valid_subscriber_name(name@) ==> (r matches Err(m) && m@ == name@
                + " is not a valid subscriber name."@),
            valid_subscriber_name(name@) && !is_valid_email(email@) ==> (r matches Err(m) && m@
                == email@ + " is not a valid subscriber email."@),
    {
        let name = match SubscriberName::parse(name) {
            Ok(n) => n,
            Err(m) => {
                return Err(m);
            },
        };
        let email = match SubscriberEmail::parse(email) {
            Ok(e) => e,
            Err(m) => {
                return Err(m);
            },
        };
        Ok(NewSubscriber { email, name })
    }
}

} // verus!

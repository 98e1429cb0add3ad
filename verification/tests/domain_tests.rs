//! Validation rules for subscriber names and email addresses.

use zero2prod::domain::{NewSubscriber, SubscriberEmail, SubscriberName};

#[test]
fn a_256_grapheme_long_name_is_valid() {
    let name = "ё".repeat(256);
    assert!(SubscriberName::parse(name).is_ok());
}

#[test]
fn a_name_longer_than_256_graphemes_is_rejected() {
    let name = "a".repeat(257);
    assert!(SubscriberName::parse(name).is_err());
}

#[test]
fn whitespace_only_names_are_rejected() {
    let name = " ".to_string();
    assert!(SubscriberName::parse(name).is_err());
}

#[test]
fn subscriber_name_empty_string_is_rejected() {
    let name = "".to_string();
    assert!(SubscriberName::parse(name).is_err());
}

#[test]
fn names_containing_an_invalid_character_are_rejected() {
    for name in &['/', '(', ')', '"', '<', '>', '\\', '{', '}'] {
        let name = name.to_string();
        assert!(SubscriberName::parse(name).is_err());
    }
}

#[test]
fn a_valid_name_is_parsed_successfully() {
    let name = "Ursula Le Guin".to_string();
    assert!(SubscriberName::parse(name).is_ok());
}

#[test]
fn subscriber_email_empty_string_is_rejected() {
    let email = "".to_string();
    assert!(SubscriberEmail::parse(email).is_err());
}

#[test]
fn email_missing_at_symbol_is_rejected() {
    let email = "ursuladomain.com".to_string();
    assert!(SubscriberEmail::parse(email).is_err());
}

#[test]
fn email_missing_subject_is_rejected() {
    let email = "@domain.com".to_string();
    assert!(SubscriberEmail::parse(email).is_err());
}

#[test]
fn a_valid_email_is_parsed_and_kept_verbatim() {
    let email = SubscriberEmail::parse("ursula_le_guin@gmail.com".to_string()).unwrap();
    assert_eq!(email.as_str(), "ursula_le_guin@gmail.com");
}

#[test]
fn a_parsed_name_is_kept_verbatim() {
    let name = SubscriberName::parse("Ursula Le Guin".to_string()).unwrap();
    assert_eq!(name.as_str(), "Ursula Le Guin");
    assert_eq!(name.into_string(), "Ursula Le Guin");
}

#[test]
fn tab_and_newline_only_names_are_rejected() {
    assert!(SubscriberName::parse("\t \n".to_string()).is_err());
}

#[test]
fn new_subscriber_checks_the_name_first() {
    let r = NewSubscriber::parse("not-an-email".to_string(), "/".to_string());
    assert_eq!(r.unwrap_err(), "/ is not a valid subscriber name.");
    let r = NewSubscriber::parse("not-an-email".to_string(), "Ursula".to_string());
    assert_eq!(r.unwrap_err(), "not-an-email is not a valid subscriber email.");
    let r = NewSubscriber::parse(
        "ursula_le_guin@gmail.com".to_string(),
        "Ursula Le Guin".to_string(),
    );
    let ns = r.unwrap();
    assert_eq!(ns.email.as_str(), "ursula_le_guin@gmail.com");
    assert_eq!(ns.name.as_str(), "Ursula Le Guin");
}

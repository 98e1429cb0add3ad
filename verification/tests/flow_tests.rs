//! The subscription lifecycle end to end: registration, confirmation,
//! credential verification and newsletter publishing over the store model.

use argon2::{Argon2, PasswordHasher};
use base64::Engine;
use zero2prod::admin;
use zero2prod::authentication::{AuthError, Credentials, validate_credentials};
use zero2prod::login::{FormData as LoginFormData, LoginOutcome, login};
use zero2prod::newsletters::{
    BodyData, Content, PublishError, basic_authentication, publish_newsletter,
};
use zero2prod::store::{Store, SubscriberStatus};
use zero2prod::subscriptions::{
    FormData, SubscribeError, generate_subscription_token, register_with, subscribe,
};
use zero2prod::subscriptions_confirm::{ConfirmOutcome, Parameters, confirm};

const BASE_URL: &str = "http://127.0.0.1";

fn form(email: &str, name: &str) -> FormData {
    FormData { email: email.to_string(), name: name.to_string() }
}

fn store_with_admin(username: &str, password: &str) -> Store {
    let mut store = Store::new();
    let hash = Argon2::default()
        .hash_password(password.as_bytes())
        .expect("hashing failed")
        .to_string();
    store
        .insert_user(7, username.to_string(), hash)
        .expect("seeding the user failed");
    store
}

fn basic_header(username: &str, password: &str) -> String {
    let encoded = base64::engine::general_purpose::STANDARD
        .encode(format!("{}:{}", username, password));
    format!("Basic {}", encoded)
}

#[test]
fn registering_a_valid_pair_writes_one_pending_row_and_one_token_row() {
    let mut store = Store::new();
    let token = "aaaaaaaaaaaaaaaaaaaaaaaaa".to_string();
    let req = register_with(
        &mut store,
        form("ursula_le_guin@gmail.com", "le guin"),
        1,
        token,
        1700000000,
        BASE_URL,
    )
    .expect("registration failed");
    assert_eq!(store.subscribers.len(), 1);
    assert_eq!(store.tokens.len(), 1);
    assert_eq!(store.subscribers[0].email, "ursula_le_guin@gmail.com");
    assert_eq!(store.subscribers[0].name, "le guin");
    assert!(matches!(
        store.subscribers[0].status,
        SubscriberStatus::PendingConfirmation
    ));
    assert_eq!(store.tokens[0].subscription_token, "aaaaaaaaaaaaaaaaaaaaaaaaa");
    assert_eq!(store.tokens[0].subscriber_id, 1);
    let link = format!(
        "{}/subscriptions/confirm?subscription_token={}",
        BASE_URL, "aaaaaaaaaaaaaaaaaaaaaaaaa"
    );
    assert_eq!(req.recipient, "ursula_le_guin@gmail.com");
    assert_eq!(req.subject, "Welcome!");
    assert_eq!(
        req.text_body,
        format!(
            "Welcome to our newsletter!\nVisit {} to confirm your subscription.",
            link
        )
    );
    assert_eq!(
        req.html_body,
        format!(
            "Welcome to our newsletter!<br />Click <a href=\"{}\">here</a> to confirm your subscription.",
            link
        )
    );
}

#[test]
fn registering_an_invalid_name_writes_nothing() {
    let mut store = Store::new();
    for name in ["", "   ", "le/guin", &"a".repeat(257)] {
        let r = register_with(
            &mut store,
            form("ursula_le_guin@gmail.com", name),
            1,
            "bbbbbbbbbbbbbbbbbbbbbbbbb".to_string(),
            0,
            BASE_URL,
        );
        match r {
            Err(e @ SubscribeError::ValidationError(_)) => assert_eq!(e.status_code(), 400),
            _ => panic!("expected a validation error for name {:?}", name),
        }
        assert_eq!(store.subscribers.len(), 0);
        assert_eq!(store.tokens.len(), 0);
    }
}

#[test]
fn registering_an_invalid_email_writes_nothing() {
    let mut store = Store::new();
    for email in ["", "ursuladomain.com", "@domain.com"] {
        let r = register_with(
            &mut store,
            form(email, "le guin"),
            1,
            "ccccccccccccccccccccccccc".to_string(),
            0,
            BASE_URL,
        );
        assert!(matches!(r, Err(SubscribeError::ValidationError(_))));
        assert_eq!(store.subscribers.len(), 0);
        assert_eq!(store.tokens.len(), 0);
    }
}

#[test]
fn registering_a_duplicate_email_fails_without_partial_rows() {
    let mut store = Store::new();
    register_with(
        &mut store,
        form("ursula_le_guin@gmail.com", "le guin"),
        1,
        "ddddddddddddddddddddddddd".to_string(),
        0,
        BASE_URL,
    )
    .expect("first registration failed");
    let r = register_with(
        &mut store,
        form("ursula_le_guin@gmail.com", "le guin"),
        2,
        "eeeeeeeeeeeeeeeeeeeeeeeee".to_string(),
        0,
        BASE_URL,
    );
    match r {
        Err(e @ SubscribeError::UnexpectedError(_)) => assert_eq!(e.status_code(), 500),
        _ => panic!("expected an unexpected-error outcome"),
    }
    assert_eq!(store.subscribers.len(), 1);
    assert_eq!(store.tokens.len(), 1);
}

#[test]
fn subscribe_generates_a_well_formed_token_and_distinct_ids() {
    let mut store = Store::new();
    subscribe(&mut store, form("a@domain.com", "A"), BASE_URL).expect("first subscribe failed");
    subscribe(&mut store, form("b@domain.com", "B"), BASE_URL).expect("second subscribe failed");
    assert_eq!(store.subscribers.len(), 2);
    assert_eq!(store.tokens.len(), 2);
    assert_ne!(store.subscribers[0].id, store.subscribers[1].id);
    for t in &store.tokens {
        assert_eq!(t.subscription_token.chars().count(), 25);
        assert!(t.subscription_token.chars().all(|c| c.is_ascii_alphanumeric()));
    }
}

#[test]
fn generated_tokens_are_25_alphanumeric_characters_and_fresh() {
    let a = generate_subscription_token();
    let b = generate_subscription_token();
    assert_eq!(a.chars().count(), 25);
    assert!(a.chars().all(|c| c.is_ascii_alphanumeric()));
    assert_ne!(a, b);
}

#[test]
fn confirming_an_unissued_token_is_unauthorized_and_changes_nothing() {
    let mut store = Store::new();
    register_with(
        &mut store,
        form("ursula_le_guin@gmail.com", "le guin"),
        1,
        "fffffffffffffffffffffffff".to_string(),
        0,
        BASE_URL,
    )
    .expect("registration failed");
    let outcome = confirm(
        &mut store,
        &Parameters { subscription_token: "never-issued".to_string() },
    );
    assert!(matches!(outcome, ConfirmOutcome::UnknownToken));
    assert_eq!(outcome.status_code(), 401);
    assert!(matches!(
        store.subscribers[0].status,
        SubscriberStatus::PendingConfirmation
    ));
}

#[test]
fn confirming_a_valid_token_flips_the_status_and_is_idempotent() {
    let mut store = Store::new();
    register_with(
        &mut store,
        form("ursula_le_guin@gmail.com", "le guin"),
        1,
        "ggggggggggggggggggggggggg".to_string(),
        0,
        BASE_URL,
    )
    .expect("registration failed");
    let params = Parameters { subscription_token: "ggggggggggggggggggggggggg".to_string() };
    let first = confirm(&mut store, &params);
    assert!(matches!(first, ConfirmOutcome::Confirmed));
    assert_eq!(first.status_code(), 200);
    assert!(matches!(store.subscribers[0].status, SubscriberStatus::Confirmed));
    let second = confirm(&mut store, &params);
    assert!(matches!(second, ConfirmOutcome::Confirmed));
    assert!(matches!(store.subscribers[0].status, SubscriberStatus::Confirmed));
    assert_eq!(store.subscribers.len(), 1);
    assert_eq!(store.tokens.len(), 1);
}

#[test]
fn unknown_username_and_wrong_password_are_indistinguishable() {
    let store = store_with_admin("admin", "everythinghastostartsomewhere");
    let unknown = validate_credentials(
        &Credentials {
            username: "nobody".to_string(),
            password: "whatever".to_string(),
        },
        &store,
    )
    .unwrap_err();
    let wrong = validate_credentials(
        &Credentials {
            username: "admin".to_string(),
            password: "not-the-password".to_string(),
        },
        &store,
    )
    .unwrap_err();
    assert!(matches!(unknown, AuthError::InvalidCredentials(_)));
    assert!(matches!(wrong, AuthError::InvalidCredentials(_)));
    assert_eq!(unknown.message(), wrong.message());
    assert_eq!(unknown.message(), "Invalid credentials.");
}

#[test]
fn the_right_password_yields_the_user_id() {
    let store = store_with_admin("admin", "everythinghastostartsomewhere");
    let user_id = validate_credentials(
        &Credentials {
            username: "admin".to_string(),
            password: "everythinghastostartsomewhere".to_string(),
        },
        &store,
    )
    .expect("valid credentials were rejected");
    assert_eq!(user_id, 7);
}

#[test]
fn login_decides_the_redirect_from_the_credential_check() {
    let store = store_with_admin("admin", "everythinghastostartsomewhere");
    let ok = login(
        &store,
        &LoginFormData {
            username: "admin".to_string(),
            password: "everythinghastostartsomewhere".to_string(),
        },
    );
    assert!(matches!(ok, LoginOutcome::Success(7)));
    let bad = login(
        &store,
        &LoginFormData {
            username: "admin".to_string(),
            password: "nope".to_string(),
        },
    );
    match bad {
        LoginOutcome::Failure(m) => assert_eq!(m, "Authentication failed"),
        _ => panic!("expected a failure outcome"),
    }
}

#[test]
fn basic_authentication_round_trips_a_credential_pair() {
    let header = basic_header("admin", "sec:ret");
    let c = basic_authentication(&header).expect("the header did not parse");
    assert_eq!(c.username, "admin");
    assert_eq!(c.password, "sec:ret");
}

#[test]
fn basic_authentication_names_each_failure() {
    let r = basic_authentication(&"Bearer xyz".to_string());
    assert_eq!(r.unwrap_err(), "The authorization scheme was not 'Basic'.");
    let r = basic_authentication(&"Basic !!!".to_string());
    assert_eq!(r.unwrap_err(), "Failed to base64-decode 'Basic' credentials.");
    let no_colon =
        format!("Basic {}", base64::engine::general_purpose::STANDARD.encode("adminsecret"));
    let r = basic_authentication(&no_colon);
    assert_eq!(r.unwrap_err(), "A password must be provided in 'Basic' auth.");
    let bad_utf8 =
        format!("Basic {}", base64::engine::general_purpose::STANDARD.encode([0xffu8, 0xfe, 0x3a]));
    let r = basic_authentication(&bad_utf8);
    assert_eq!(r.unwrap_err(), "The decoded credential string is not valid UTF8");
}

#[test]
fn newsletters_are_delivered_to_each_confirmed_subscriber_once() {
    let mut store = store_with_admin("admin", "everythinghastostartsomewhere");
    for (i, email) in ["a@domain.com", "b@domain.com", "c@domain.com"].iter().enumerate() {
        let token = format!("{}", i).repeat(25);
        register_with(&mut store, form(email, "Reader"), (i + 1) as u128, token.clone(), 0, BASE_URL)
            .expect("registration failed");
        if i < 2 {
            let outcome = confirm(&mut store, &Parameters { subscription_token: token });
            assert!(matches!(outcome, ConfirmOutcome::Confirmed));
        }
    }
    let body = BodyData {
        title: "Newsletter title".to_string(),
        content: Content {
            html: "<p>Newsletter body as HTML</p>".to_string(),
            text: "Newsletter body as plain text".to_string(),
        },
    };
    let header = basic_header("admin", "everythinghastostartsomewhere");
    let plan = publish_newsletter(&store, &header, &body).expect("publishing failed");
    assert_eq!(plan.len(), 2);
    assert_eq!(plan[0].recipient, "a@domain.com");
    assert_eq!(plan[1].recipient, "b@domain.com");
    for req in &plan {
        assert_eq!(req.subject, "Newsletter title");
        assert_eq!(req.html_body, "<p>Newsletter body as HTML</p>");
        assert_eq!(req.text_body, "Newsletter body as plain text");
    }
}

#[test]
fn newsletters_are_not_delivered_to_unconfirmed_subscribers_model() {
    let mut store = store_with_admin("admin", "everythinghastostartsomewhere");
    register_with(
        &mut store,
        form("ursula_le_guin@gmail.com", "le guin"),
        1,
        "hhhhhhhhhhhhhhhhhhhhhhhhh".to_string(),
        0,
        BASE_URL,
    )
    .expect("registration failed");
    let body = BodyData {
        title: "Newsletter title".to_string(),
        content: Content {
            html: "<p>Newsletter body as HTML</p>".to_string(),
            text: "Newsletter body as plain text".to_string(),
        },
    };
    let header = basic_header("admin", "everythinghastostartsomewhere");
    let plan = publish_newsletter(&store, &header, &body).expect("publishing failed");
    assert_eq!(plan.len(), 0);
}

#[test]
fn publishing_with_bad_credentials_is_unauthorized() {
    let store = store_with_admin("admin", "everythinghastostartsomewhere");
    let body = BodyData {
        title: "Newsletter title".to_string(),
        content: Content {
            html: "<p>x</p>".to_string(),
            text: "x".to_string(),
        },
    };
    let header = basic_header("admin", "wrong-password");
    match publish_newsletter(&store, &header, &body) {
        Err(e @ PublishError::AuthError(_)) => {
            assert_eq!(e.status_code(), 401);
            assert_eq!(e.message(), "Authentication failed");
        },
        _ => panic!("expected an authentication failure"),
    }
}

#[test]
fn end_to_end_register_confirm_publish() {
    let mut store = store_with_admin("admin", "everythinghastostartsomewhere");
    let req = subscribe(
        &mut store,
        form("ursula_le_guin@gmail.com", "le guin"),
        BASE_URL,
    )
    .expect("subscribing failed");
    assert_eq!(req.recipient, "ursula_le_guin@gmail.com");
    let token = store.tokens[0].subscription_token.clone();
    let link = format!(
        "{}/subscriptions/confirm?subscription_token={}",
        BASE_URL, token
    );
    assert!(req.html_body.contains(&link));
    assert!(req.text_body.contains(&link));
    let outcome = confirm(&mut store, &Parameters { subscription_token: token });
    assert_eq!(outcome.status_code(), 200);
    assert!(matches!(store.subscribers[0].status, SubscriberStatus::Confirmed));
    let body = BodyData {
        title: "Newsletter title".to_string(),
        content: Content {
            html: "<p>Newsletter body as HTML</p>".to_string(),
            text: "Newsletter body as plain text".to_string(),
        },
    };
    let header = basic_header("admin", "everythinghastostartsomewhere");
    let plan = publish_newsletter(&store, &header, &body).expect("publishing failed");
    assert_eq!(plan.len(), 1);
    assert_eq!(plan[0].recipient, "ursula_le_guin@gmail.com");
}

#[test]
fn the_admin_publish_path_builds_the_same_plan() {
    let mut store = store_with_admin("admin", "everythinghastostartsomewhere");
    register_with(
        &mut store,
        form("a@domain.com", "A"),
        1,
        "iiiiiiiiiiiiiiiiiiiiiiiii".to_string(),
        0,
        BASE_URL,
    )
    .expect("registration failed");
    confirm(
        &mut store,
        &Parameters { subscription_token: "iiiiiiiiiiiiiiiiiiiiiiiii".to_string() },
    );
    let body = admin::FormData {
        title: "Newsletter title".to_string(),
        content_html: "<p>Newsletter body as HTML</p>".to_string(),
        content_txt: "Newsletter body as plain text".to_string(),
    };
    let plan = admin::publish_newsletter(7, &store, &body);
    assert_eq!(plan.len(), 1);
    assert_eq!(plan[0].recipient, "a@domain.com");
    assert_eq!(plan[0].subject, "Newsletter title");
}

#[test]
fn changing_the_password_requires_the_current_one_and_matching_entries() {
    let mut store = store_with_admin("admin", "everythinghastostartsomewhere");
    let r = admin::change_password(
        &mut store,
        None,
        admin::PasswordFormData {
            current_password: "x".to_string(),
            new_password: "y".to_string(),
            new_password_check: "y".to_string(),
        },
    );
    assert!(matches!(r, admin::ChangePasswordOutcome::NotLoggedIn));
    let r = admin::change_password(
        &mut store,
        Some(7),
        admin::PasswordFormData {
            current_password: "everythinghastostartsomewhere".to_string(),
            new_password: "a-whole-new-password".to_string(),
            new_password_check: "a-different-password".to_string(),
        },
    );
    assert!(matches!(r, admin::ChangePasswordOutcome::MismatchedNewPasswords));
    let r = admin::change_password(
        &mut store,
        Some(7),
        admin::PasswordFormData {
            current_password: "not-the-current-one".to_string(),
            new_password: "a-whole-new-password".to_string(),
            new_password_check: "a-whole-new-password".to_string(),
        },
    );
    assert!(matches!(r, admin::ChangePasswordOutcome::InvalidCurrentPassword));
    let r = admin::change_password(
        &mut store,
        Some(7),
        admin::PasswordFormData {
            current_password: "everythinghastostartsomewhere".to_string(),
            new_password: "a-whole-new-password".to_string(),
            new_password_check: "a-whole-new-password".to_string(),
        },
    );
    assert!(matches!(r, admin::ChangePasswordOutcome::Changed));
    let relogin = validate_credentials(
        &Credentials {
            username: "admin".to_string(),
            password: "a-whole-new-password".to_string(),
        },
        &store,
    );
    assert!(relogin.is_ok());
    let old = validate_credentials(
        &Credentials {
            username: "admin".to_string(),
            password: "everythinghastostartsomewhere".to_string(),
        },
        &store,
    );
    assert!(old.is_err());
}

#[test]
fn the_dashboard_lookup_returns_the_username() {
    let store = store_with_admin("admin", "everythinghastostartsomewhere");
    assert_eq!(admin::get_username(7, &store).unwrap(), "admin");
    assert_eq!(admin::get_username(8, &store).unwrap_err(), "User not found.");
}

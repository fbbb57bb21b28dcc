use z2p::domain::{NewSubscriber, SubscriberEmail, SubscriberName};

#[test]
fn subscriber_email_empty_string_is_rejected() {
    let email = "".to_string();
    assert!(SubscriberEmail::parse(email).is_err());
}

#[test]
fn email_missing_at_symbol_is_rejected() {
    let email = "ursuladomain.com".to_string();
    assert!(SubscriberEmail::parse(email).is_err());
}

#[test]
fn email_missing_subject_is_rejected() {
    let email = "@domain.com".to_string();
    assert!(SubscriberEmail::parse(email).is_err());
}

#[test]
fn full_emails_are_parsed_successfully() {
    for email in ["ursula@domain.com", "a.b-c+tag@example.org", "email@[127.0.0.1]"] {
        let parsed = SubscriberEmail::parse(email.to_string()).expect("a valid address");
        assert_eq!(parsed.as_ref(), email);
    }
}

#[test]
fn a_rejected_email_is_named_in_the_message() {
    let message = SubscriberEmail::parse("not-an-email".to_string()).unwrap_err();
    assert_eq!(message, "not-an-email is not a valid subscriber email.");
}

#[test]
fn a_clone_of_an_email_has_the_same_text() {
    let email = SubscriberEmail::parse("ursula@domain.com".to_string()).unwrap();
    assert_eq!(email.clone().as_ref(), "ursula@domain.com");
}

#[test]
fn a_256_grapheme_long_name_is_valid() {
    let name = "ё".repeat(256);
    assert!(SubscriberName::parse(name).is_ok());
}

#[test]
fn a_name_longer_than_256_graphemes_is_rejected() {
    let name = "a".repeat(257);
    assert!(SubscriberName::parse(name).is_err());
}

#[test]
fn whitespace_only_names_are_rejected() {
    assert!(SubscriberName::parse(" ".to_string()).is_err());
    assert!(SubscriberName::parse("".to_string()).is_err());
}

#[test]
fn names_with_a_forbidden_character_are_rejected() {
    for c in &['/', '(', ')', '"', '<', '>', '\\', '{', '}'] {
        let name = format!("Ursula{}", c);
        assert_eq!(
            SubscriberName::parse(name.clone()).unwrap_err(),
            format!("{} is not a valid subscriber name.", name)
        );
    }
}

#[test]
fn a_valid_name_is_parsed_successfully() {
    let name = SubscriberName::parse("Ursula Le Guin".to_string()).unwrap();
    assert_eq!(name.as_ref(), "Ursula Le Guin");
    assert_eq!(name.clone().as_ref(), "Ursula Le Guin");
}

#[test]
fn a_new_subscriber_needs_a_valid_name_and_a_valid_email() {
    let subscriber =
        NewSubscriber::parse("Ursula".to_string(), "ursula@domain.com".to_string()).unwrap();
    assert_eq!(subscriber.name.as_ref(), "Ursula");
    assert_eq!(subscriber.email.as_ref(), "ursula@domain.com");
}

#[test]
fn a_new_subscriber_reports_the_name_before_the_email() {
    let both_bad = NewSubscriber::parse("".to_string(), "nope".to_string()).unwrap_err();
    assert_eq!(both_bad, " is not a valid subscriber name.");
    let email_bad = NewSubscriber::parse("Ursula".to_string(), "nope".to_string()).unwrap_err();
    assert_eq!(email_bad, "nope is not a valid subscriber email.");
}

//! Validation of subscriber names and email addresses.

use newsletter::domain::errors::MalformedInput;
use newsletter::domain::new_subscriber::build_new_subscriber;
use newsletter::domain::subscriber_email::SubscriberEmail;
use newsletter::domain::subscriber_name::SubscriberName;
use newsletter::domain::subscriber_name::MAX_LENGTH;

#[test]
fn empty_name_is_invalid() {
    assert!(SubscriberName::parse("".to_string()).is_err());
}

#[test]
fn whitespace_name_is_invalid() {
    assert!(SubscriberName::parse(" ".repeat(MAX_LENGTH)).is_err());
    assert!(SubscriberName::parse(" ".to_string()).is_err());
}

#[test]
fn too_long_name_is_invalid() {
    assert!(SubscriberName::parse("a".repeat(MAX_LENGTH + 1)).is_err());
}

#[test]
fn max_length_name_is_valid() {
    assert!(SubscriberName::parse("a".repeat(MAX_LENGTH)).is_ok());
}

#[test]
fn valid_name_is_parsed_successfully() {
    let name = SubscriberName::parse("Ursula Le Guin".to_string()).unwrap();
    assert_eq!(name.as_str(), "Ursula Le Guin");
}

#[test]
fn name_with_forbidden_chars_is_invalid() {
    for c in ['/', '(', ')', '"', '<', '>', '\\', '{', '}'] {
        let name = format!("Ursula {} Le Guin", c);
        assert!(SubscriberName::parse(name).is_err());
    }
}

#[test]
fn name_length_counts_graphemes_not_chars() {
    // Each cluster is two characters; 200 clusters pass although 400
    // characters exceed the limit, and 257 clusters fail.
    assert!(SubscriberName::parse("a\u{0301}".repeat(200)).is_ok());
    assert!(SubscriberName::parse("a\u{0301}".repeat(MAX_LENGTH + 1)).is_err());
}

#[test]
fn unicode_whitespace_name_is_invalid() {
    assert!(SubscriberName::parse("\u{00A0}\t\n \u{3000}".to_string()).is_err());
}

#[test]
fn rejected_name_is_carried_in_the_error() {
    match SubscriberName::parse("<script>".to_string()) {
        Err(MalformedInput::InvalidName { name }) => assert_eq!(name, "<script>"),
        _ => panic!("expected an invalid-name error"),
    }
}

#[test]
fn valid_email_is_parsed_successfully() {
    let email = SubscriberEmail::parse("ursula_le_guin@gmail.com".to_string()).unwrap();
    assert_eq!(email.as_str(), "ursula_le_guin@gmail.com");
}

#[test]
fn email_missing_at_is_invalid() {
    assert!(SubscriberEmail::parse("ursula_le_guin.gmail.com".to_string()).is_err());
}

#[test]
fn empty_email_is_invalid() {
    assert!(SubscriberEmail::parse("".to_string()).is_err());
}

#[test]
fn email_missing_local_part_is_invalid() {
    assert!(SubscriberEmail::parse("@gmail.com".to_string()).is_err());
}

#[test]
fn build_new_subscriber_rejects_invalid_name_first() {
    match build_new_subscriber("".to_string(), "also-not-an-email".to_string()) {
        Err(MalformedInput::InvalidName { name }) => assert_eq!(name, ""),
        _ => panic!("expected an invalid-name error"),
    }
}

#[test]
fn build_new_subscriber_rejects_invalid_email() {
    match build_new_subscriber("le guin".to_string(), "not-an-email".to_string()) {
        Err(MalformedInput::InvalidEmail { email }) => assert_eq!(email, "not-an-email"),
        _ => panic!("expected an invalid-email error"),
    }
}

#[test]
fn build_new_subscriber_accepts_valid_form() {
    let s = build_new_subscriber(
        "le guin".to_string(),
        "ursula_le_guin@gmail.com".to_string(),
    )
    .unwrap();
    assert_eq!(s.name.as_str(), "le guin");
    assert_eq!(s.email.as_str(), "ursula_le_guin@gmail.com");
}

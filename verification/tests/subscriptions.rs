//! The subscribe route on the store model.

use newsletter::routes::subscriptions::confirmation_link;
use newsletter::routes::subscriptions::generate_subscription_token;
use newsletter::routes::subscriptions::subscribe;
use newsletter::routes::subscriptions::FormData;
use newsletter::routes::subscriptions::TOKEN_LENGTH;
use newsletter::store::Store;
use newsletter::store::SubscriptionStatus;

fn valid_form() -> FormData {
    FormData {
        name: "le guin".to_string(),
        email: "ursula_le_guin@gmail.com".to_string(),
    }
}

const BASE_URL: &str = "https://newsletter.example";
const TOKEN: &str = "0123456789abcdefghijklmno";

#[test]
fn subscribe_adds_new_pending_subscriber() {
    let mut store = Store::new();
    let email = subscribe(&mut store, valid_form(), BASE_URL, 7, TOKEN, 1_700_000_000).unwrap();

    assert_eq!(store.subscriptions.len(), 1);
    let row = &store.subscriptions[0];
    assert_eq!(row.id, 7);
    assert_eq!(row.email, "ursula_le_guin@gmail.com");
    assert_eq!(row.name, "le guin");
    assert!(row.status == SubscriptionStatus::Pending);
    assert_eq!(row.subscribed_at, 1_700_000_000);

    assert_eq!(store.subscription_tokens.len(), 1);
    assert_eq!(store.subscription_tokens[0].subscription_token, TOKEN);
    assert_eq!(store.subscription_tokens[0].subscriber_id, 7);

    assert_eq!(email.recipient.as_str(), "ursula_le_guin@gmail.com");
    assert_eq!(email.subject, "Newsletter Subscription");
}

#[test]
fn confirmation_email_has_exactly_one_link_in_each_body() {
    let mut store = Store::new();
    let email = subscribe(&mut store, valid_form(), BASE_URL, 7, TOKEN, 0).unwrap();
    let link = format!(
        "{}/subscriptions/confirm?subscription_token={}",
        BASE_URL, TOKEN
    );
    assert_eq!(email.html_body.matches(link.as_str()).count(), 1);
    assert_eq!(email.text_body.matches(link.as_str()).count(), 1);
    assert_eq!(
        email.html_body,
        format!(
            "Welcome to our newsletter!<br />Visit {} to confirm your subscription <br />",
            link
        )
    );
    assert_eq!(
        email.text_body,
        format!(
            "Welcome to our newsletter!\nVisit {} to confirm your subscription.",
            link
        )
    );
}

#[test]
fn confirmation_link_is_exact() {
    assert_eq!(
        confirmation_link("https://base", "tok"),
        "https://base/subscriptions/confirm?subscription_token=tok"
    );
}

#[test]
fn subscribe_returns_a_400_with_invalid_fields() {
    for (name, email, case) in [
        ("".to_string(), "ursula_le_guin@gmail.com".to_string(), "empty name"),
        ("ursula".to_string(), "".to_string(), "empty email"),
        ("ursula".to_string(), "definitely-not-an-email".to_string(), "malformed email"),
    ] {
        let mut store = Store::new();
        let error = subscribe(
            &mut store,
            FormData { name, email },
            BASE_URL,
            7,
            TOKEN,
            0,
        )
        .unwrap_err();
        assert_eq!(error.status_code(), 400, "case: {}", case);
        assert_eq!(store.subscriptions.len(), 0, "case: {}", case);
        assert_eq!(store.subscription_tokens.len(), 0, "case: {}", case);
    }
}

#[test]
fn subscribe_with_duplicate_token_fails_with_500() {
    let mut store = Store::new();
    subscribe(&mut store, valid_form(), BASE_URL, 7, TOKEN, 0).unwrap();
    let form = FormData {
        name: "other name".to_string(),
        email: "other@example.com".to_string(),
    };
    let error = subscribe(&mut store, form, BASE_URL, 8, TOKEN, 0).unwrap_err();
    assert_eq!(error.status_code(), 500);
    assert_eq!(store.subscriptions.len(), 1);
    assert_eq!(store.subscription_tokens.len(), 1);
}

#[test]
fn subscribe_with_duplicate_id_fails_with_500() {
    let mut store = Store::new();
    subscribe(&mut store, valid_form(), BASE_URL, 7, TOKEN, 0).unwrap();
    let form = FormData {
        name: "other name".to_string(),
        email: "other@example.com".to_string(),
    };
    let error = subscribe(&mut store, form, BASE_URL, 7, "another0123456789abcdefgh", 0)
        .unwrap_err();
    assert_eq!(error.status_code(), 500);
    assert_eq!(store.subscriptions.len(), 1);
}

#[test]
fn subscription_token_is_25_alphanumerics() {
    let token = generate_subscription_token();
    assert_eq!(token.chars().count(), TOKEN_LENGTH);
    assert!(token.chars().all(|c| c.is_ascii_alphanumeric()));
    let second = generate_subscription_token();
    assert_ne!(token, second);
}

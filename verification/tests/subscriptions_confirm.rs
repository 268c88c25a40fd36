//! The confirm route on the store model.

use newsletter::routes::subscriptions::subscribe;
use newsletter::routes::subscriptions::FormData;
use newsletter::routes::subscriptions_confirm::confirm;
use newsletter::routes::subscriptions_confirm::Parameter;
use newsletter::store::Store;
use newsletter::store::SubscriptionStatus;

const BASE_URL: &str = "https://newsletter.example";
const TOKEN: &str = "0123456789abcdefghijklmno";

fn store_with_pending_subscriber() -> Store {
    let mut store = Store::new();
    let form = FormData {
        name: "le guin".to_string(),
        email: "ursula_le_guin@gmail.com".to_string(),
    };
    subscribe(&mut store, form, BASE_URL, 7, TOKEN, 0).unwrap();
    store
}

#[test]
fn subscriptions_confirm_returns_a_404_with_invalid_token() {
    let mut store = store_with_pending_subscriber();
    let parameter = Parameter {
        subscription_token: "invalid-token".to_string(),
    };
    let error = confirm(&mut store, &parameter).unwrap_err();
    assert_eq!(error.status_code(), 404);
    assert_eq!(store.subscriptions.len(), 1);
    assert!(store.subscriptions[0].status == SubscriptionStatus::Pending);
    assert_eq!(store.subscription_tokens.len(), 1);
}

#[test]
fn confirm_with_unknown_token_keeps_failing_on_repetition() {
    let mut store = Store::new();
    let parameter = Parameter {
        subscription_token: "never-issued".to_string(),
    };
    for _ in 0..3 {
        let error = confirm(&mut store, &parameter).unwrap_err();
        assert_eq!(error.status_code(), 404);
        assert_eq!(store.subscriptions.len(), 0);
        assert_eq!(store.subscription_tokens.len(), 0);
    }
}

#[test]
fn subscriptions_confirm_works() {
    let mut store = store_with_pending_subscriber();
    let parameter = Parameter {
        subscription_token: TOKEN.to_string(),
    };
    confirm(&mut store, &parameter).unwrap();
    assert_eq!(store.subscriptions.len(), 1);
    assert!(store.subscriptions[0].status == SubscriptionStatus::Confirmed);
    assert_eq!(store.subscription_tokens.len(), 0);

    // The token was consumed: a second confirmation finds nothing.
    let error = confirm(&mut store, &parameter).unwrap_err();
    assert_eq!(error.status_code(), 404);
    assert!(store.subscriptions[0].status == SubscriptionStatus::Confirmed);
}

#[test]
fn missing_token_response_names_the_token() {
    let mut store = Store::new();
    let parameter = Parameter {
        subscription_token: "xyz".to_string(),
    };
    let error = confirm(&mut store, &parameter).unwrap_err();
    assert_eq!(error.response_body(), "\"Token: xyz not found\"");
    assert_eq!(error.message(), "Confirmation failed for missing token: xyz");
}

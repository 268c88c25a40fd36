//! The newsletter-send route on the store model: Basic authentication and
//! delivery planning.

use argon2::Argon2;
use argon2::PasswordHasher;
use argon2::password_hash::SaltString;

use newsletter::routes::newsletters::get_credentials;
use newsletter::routes::newsletters::Credentials;
use newsletter::routes::newsletters::newsletters;
use newsletter::routes::newsletters::validate_credentials;
use newsletter::routes::newsletters::www_authenticate;
use newsletter::routes::newsletters::Article;
use newsletter::routes::newsletters::ArticleContent;
use newsletter::routes::subscriptions::subscribe;
use newsletter::routes::subscriptions::FormData;
use newsletter::routes::subscriptions_confirm::confirm;
use newsletter::routes::subscriptions_confirm::Parameter;
use newsletter::store::Store;
use newsletter::store::StoredUser;
use newsletter::store::SubscriberRow;
use newsletter::store::SubscriptionStatus;

const BASE_URL: &str = "https://newsletter.example";
const TOKEN: &str = "0123456789abcdefghijklmno";
const USERNAME: &str = "any_user";
const PASSWORD: &str = "any_password";

fn article() -> Article {
    Article {
        title: "any_title".to_string(),
        content: ArticleContent {
            text: "any_text".to_string(),
            html: "any_html".to_string(),
        },
    }
}

fn phc_of(password: &str) -> String {
    let salt = SaltString::b64_encode(b"0123456789abcdef").unwrap();
    Argon2::default()
        .hash_password(password.as_bytes(), &salt)
        .unwrap()
        .to_string()
}

fn store_with_operator() -> Store {
    let mut store = Store::new();
    store.add_user(StoredUser {
        id: 42,
        username: USERNAME.to_string(),
        phc_password: phc_of(PASSWORD),
    });
    store
}

fn add_pending_subscriber(store: &mut Store) {
    let form = FormData {
        name: "le guin".to_string(),
        email: "ursula_le_guin@gmail.com".to_string(),
    };
    subscribe(store, form, BASE_URL, 7, TOKEN, 0).unwrap();
}

fn confirm_subscriber(store: &mut Store) {
    let parameter = Parameter {
        subscription_token: TOKEN.to_string(),
    };
    confirm(store, &parameter).unwrap();
}

fn basic_header(username: &str, password: &str) -> String {
    format!("Basic {}", base64::encode(format!("{}:{}", username, password)))
}

#[test]
fn requests_missing_authorization_are_rejected() {
    let store = store_with_operator();
    let error = newsletters(&store, None, &article()).unwrap_err();
    assert_eq!(error.status_code(), 401);
    let challenge = www_authenticate();
    assert_eq!(challenge.0, "WWW-Authenticate");
    assert_eq!(challenge.1, "Basic realm=\"publish\"");
}

#[test]
fn emails_are_sent_to_confirmed_users() {
    let mut store = store_with_operator();
    add_pending_subscriber(&mut store);
    confirm_subscriber(&mut store);
    let header = basic_header(USERNAME, PASSWORD);
    let deliveries = newsletters(&store, Some(header.as_str()), &article()).unwrap();
    assert_eq!(deliveries.len(), 1);
    assert_eq!(deliveries[0].recipient.as_str(), "ursula_le_guin@gmail.com");
    assert_eq!(deliveries[0].subject, "any_title");
    assert_eq!(deliveries[0].html_body, "any_html");
    assert_eq!(deliveries[0].text_body, "any_text");
}

#[test]
fn emails_are_not_sent_to_pending_users() {
    let mut store = store_with_operator();
    add_pending_subscriber(&mut store);
    let header = basic_header(USERNAME, PASSWORD);
    let deliveries = newsletters(&store, Some(header.as_str()), &article()).unwrap();
    assert_eq!(deliveries.len(), 0);
}

#[test]
fn wrong_password_is_rejected() {
    let store = store_with_operator();
    let header = basic_header(USERNAME, "wrong_password");
    let error = newsletters(&store, Some(header.as_str()), &article()).unwrap_err();
    assert_eq!(error.status_code(), 401);
    assert_eq!(error.message(), "Authentication Error: Wrong password");
}

#[test]
fn unknown_username_is_rejected() {
    let store = store_with_operator();
    let header = basic_header("stranger", PASSWORD);
    let error = newsletters(&store, Some(header.as_str()), &article()).unwrap_err();
    assert_eq!(error.status_code(), 401);
}

#[test]
fn non_basic_scheme_is_rejected() {
    let store = store_with_operator();
    let error = newsletters(&store, Some("Bearer abcdef"), &article()).unwrap_err();
    assert_eq!(error.status_code(), 401);
    assert_eq!(
        error.message(),
        "Authentication Error: Authorization scheme is not Basic"
    );
}

#[test]
fn undecodable_credentials_are_rejected() {
    let store = store_with_operator();
    let error = newsletters(&store, Some("Basic !!!not-base64!!!"), &article()).unwrap_err();
    assert_eq!(error.status_code(), 401);
    assert_eq!(
        error.message(),
        "Authentication Error: Credentials cannot be base64 decoded"
    );
}

#[test]
fn credentials_without_colon_are_rejected() {
    let store = store_with_operator();
    let header = format!("Basic {}", base64::encode("no-colon-here"));
    let error = newsletters(&store, Some(header.as_str()), &article()).unwrap_err();
    assert_eq!(error.status_code(), 401);
    assert_eq!(
        error.message(),
        "Authentication Error: Invalid credentials: missing password"
    );
}

#[test]
fn credentials_are_split_at_colons() {
    let header = basic_header("user", "pass");
    let credentials = get_credentials(Some(header.as_str())).unwrap();
    assert_eq!(credentials.username, "user");
    assert_eq!(credentials.password, "pass");

    // The password reaches only to the second colon.
    let header = format!("Basic {}", base64::encode("user:pa:ss"));
    let credentials = get_credentials(Some(header.as_str())).unwrap();
    assert_eq!(credentials.username, "user");
    assert_eq!(credentials.password, "pa");
}

#[test]
fn validate_credentials_accepts_the_right_password() {
    let user = StoredUser {
        id: 42,
        username: USERNAME.to_string(),
        phc_password: phc_of(PASSWORD),
    };
    let id = validate_credentials(
        Credentials {
            username: USERNAME.to_string(),
            password: PASSWORD.to_string(),
        },
        Some(user),
    )
    .unwrap();
    assert_eq!(id, 42);
}

#[test]
fn malformed_stored_hash_is_rejected() {
    let mut store = Store::new();
    store.add_user(StoredUser {
        id: 42,
        username: USERNAME.to_string(),
        phc_password: "not-a-phc-string".to_string(),
    });
    let header = basic_header(USERNAME, PASSWORD);
    let error = newsletters(&store, Some(header.as_str()), &article()).unwrap_err();
    assert_eq!(error.status_code(), 401);
    assert_eq!(
        error.message(),
        "Authentication Error: Invalid password format: not PHC format"
    );
}

#[test]
fn invalid_stored_email_is_skipped() {
    let mut store = store_with_operator();
    store.subscriptions.push(SubscriberRow {
        id: 9,
        email: "slipped-past-validation".to_string(),
        name: "nameless".to_string(),
        status: SubscriptionStatus::Confirmed,
        subscribed_at: 0,
    });
    let header = basic_header(USERNAME, PASSWORD);
    let deliveries = newsletters(&store, Some(header.as_str()), &article()).unwrap();
    assert_eq!(deliveries.len(), 0);
}

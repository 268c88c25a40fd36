//! The subscribe route: validate the form, persist the pending subscriber
//! and its token as one transaction, and build the confirmation email.

use vstd::prelude::*;

use crate::domain::errors::MalformedInput;
use crate::domain::new_subscriber::build_new_subscriber;
use crate::domain::new_subscriber::NewSubscriber;
use crate::domain::subscriber_email::is_valid_email;
use crate::domain::subscriber_name::SubscriberName;
use crate::email_client::OutgoingEmail;
use crate::routes::errors::NewsletterError;
use crate::store::spec_subscribe_transaction;
use crate::store::Store;
use crate::text::chars_to_string;
use crate::text::push_chars;

verus! {

/// The subscription form: the raw `name` and `email` fields.
pub struct FormData {
    pub name: String,
    pub email: String,
}

/// The characters a subscription token is drawn from: ASCII alphanumerics.
pub open spec fn is_token_char(c: char) -> bool {
    ('a' as u32 <= c as u32 && c as u32 <= 'z' as u32) || ('A' as u32 <= c as u32 && c as u32
        <= 'Z' as u32) || ('0' as u32 <= c as u32 && c as u32 <= '9' as u32)
}

/// The length of a subscription token.
pub const TOKEN_LENGTH: usize = 25;

/// Relies on `rand`'s `Alphanumeric` distribution sampled from `thread_rng`:
/// its source draws uniformly from the ASCII alphanumerics. The value is
/// random, so nothing more is promised of it.
#[verifier::external_body]
fn random_alphanumeric_char() -> (c: char)
    ensures
        is_token_char(c),
{
    char::from(rand::Rng::sample(&mut rand::thread_rng(), rand::distributions::Alphanumeric))
}

/// A fresh subscription token: `TOKEN_LENGTH` random alphanumerics.
pub fn generate_subscription_token() -> (r: String)
    ensures
        r@.len() == TOKEN_LENGTH,
        forall|i: int| 0 <= i < r@.len() ==> is_token_char(#[trigger] r@[i]),
{
    let mut out: Vec<char> = Vec::new();
    let mut k: usize = 0;
    while k < TOKEN_LENGTH
        invariant
            k == out@.len(),
            k <= TOKEN_LENGTH,
            forall|i: int| 0 <= i < out@.len() ==> is_token_char(#[trigger] out@[i]),
        decreases TOKEN_LENGTH - k,
    {
        let c = random_alphanumeric_char();
        out.push(c);
        k = k + 1;
    }
    chars_to_string(out)
}

/// Relies on `uuid::Uuid::new_v4`: a freshly generated random identifier,
/// handed on as its 128-bit value. The value is random, so nothing is
/// promised of it.
#[verifier::external_body]
pub fn fresh_subscriber_id() -> u128 {
    uuid::Uuid::new_v4().as_u128()
}

/// The confirmation link for a token.
pub open spec fn spec_confirmation_link(app_base_url: Seq<char>, token: Seq<char>) -> Seq<char> {
    app_base_url + "/subscriptions/confirm?subscription_token="@ + token
}

/// The HTML body of the confirmation email.
pub open spec fn spec_html_body(link: Seq<char>) -> Seq<char> {
    "Welcome to our newsletter!<br />Visit "@ + link + " to confirm your subscription <br />"@
}

/// The plain-text body of the confirmation email.
pub open spec fn spec_text_body(link: Seq<char>) -> Seq<char> {
    "Welcome to our newsletter!\nVisit "@ + link + " to confirm your subscription."@
}

/// Builds the confirmation link for a token.
pub fn confirmation_link(app_base_url: &str, token: &str) -> (r: String)
    ensures
        r@ == spec_confirmation_link(app_base_url@, token@),
{
    let mut out: Vec<char> = Vec::new();
    push_chars(&mut out, app_base_url);
    push_chars(&mut out, "/subscriptions/confirm?subscription_token=");
    push_chars(&mut out, token);
    proof {
        assert(out@ =~= spec_confirmation_link(app_base_url@, token@));
    }
    chars_to_string(out)
}

/// Builds the confirmation email: the new subscriber as recipient, the fixed
/// subject, and the two bodies around the link.
pub fn confirmation_email(new_subscriber: NewSubscriber, sub_link: &str) -> (r: OutgoingEmail)
    ensures
        r.recipient@ == new_subscriber.email@,
        r.subject@ == "Newsletter Subscription"@,
        r.html_body@ == spec_html_body(sub_link@),
        r.text_body@ == spec_text_body(sub_link@),
{
    let mut html: Vec<char> = Vec::new();
    push_chars(&mut html, "Welcome to our newsletter!<br />Visit ");
    push_chars(&mut html, sub_link);
    push_chars(&mut html, " to confirm your subscription <br />");
    let mut text: Vec<char> = Vec::new();
    push_chars(&mut text, "Welcome to our newsletter!\nVisit ");
    push_chars(&mut text, sub_link);
    push_chars(&mut text, " to confirm your subscription.");
    let r = OutgoingEmail {
        recipient: new_subscriber.email,
        subject: "Newsletter Subscription".to_owned(),
        html_body: chars_to_string(html),
        text_body: chars_to_string(text),
    };
    proof {
        assert(r.html_body@ =~= spec_html_body(sub_link@));
        assert(r.text_body@ =~= spec_text_body(sub_link@));
    }
    r
}

/// Law: both confirmation bodies embed the confirmation link itself — the
/// same link in the HTML body and in the plain-text body, right after each
/// body's fixed opening text.
pub proof fn lemma_confirmation_bodies_contain_link(link: Seq<char>)
    ensures
        ({
            let p = "Welcome to our newsletter!<br />Visit "@;
            spec_html_body(link).subrange(p.len() as int, p.len() + link.len() as int) == link
        }),
        ({
            let p = "Welcome to our newsletter!\nVisit "@;
            spec_text_body(link).subrange(p.len() as int, p.len() + link.len() as int) == link
        }),
{
    let ph = "Welcome to our newsletter!<br />Visit "@;
    assert(spec_html_body(link).subrange(ph.len() as int, ph.len() + link.len() as int) =~= link);
    let pt = "Welcome to our newsletter!\nVisit "@;
    assert(spec_text_body(link).subrange(pt.len() as int, pt.len() + link.len() as int) =~= link);
}

/// Handles a subscription request. Validates the two fields (a failure is a
/// validation error and changes nothing), then persists the pending
/// subscriber and its token as one transaction (a constraint violation is an
/// internal error and changes nothing), and hands back the confirmation
/// email for the caller to send. The caller supplies the fresh subscriber id
/// and token and the timestamp.
pub fn subscribe(
    store: &mut Store,
    form: FormData,
    app_base_url: &str,
    subscriber_id: u128,
    subscription_token: &str,
    subscribed_at: i64,
) -> (r: Result<OutgoingEmail, NewsletterError>)
    ensures
        match r {
            Ok(email) => {
                &&& SubscriberName::spec_valid(form.name@)
                &&& is_valid_email(form.email@)
                &&& Some(final(store)@) == spec_subscribe_transaction(
                    old(store)@,
                    subscriber_id,
                    form.email@,
                    form.name@,
                    subscribed_at,
                    subscription_token@,
                )
                &&& email.recipient@ == form.email@
                &&& email.subject@ == "Newsletter Subscription"@
                &&& email.html_body@ == spec_html_body(
                    spec_confirmation_link(app_base_url@, subscription_token@),
                )
                &&& email.text_body@ == spec_text_body(
                    spec_confirmation_link(app_base_url@, subscription_token@),
                )
            },
            Err(e) => match e {
                NewsletterError::ValidationError(msg) => {
                    &&& !(SubscriberName::spec_valid(form.name@) && is_valid_email(form.email@))
                    &&& final(store)@ == old(store)@
                    &&& (!SubscriberName::spec_valid(form.name@) ==> msg@ == form.name@)
                    &&& (SubscriberName::spec_valid(form.name@) ==> msg@ == "Invalid email: "@
                        + form.email@)
                },
                NewsletterError::UnexpectedError(_) => {
                    &&& SubscriberName::spec_valid(form.name@)
                    &&& is_valid_email(form.email@)
                    &&& spec_subscribe_transaction(
                        old(store)@,
                        subscriber_id,
                        form.email@,
                        form.name@,
                        subscribed_at,
                        subscription_token@,
                    ) is None
                    &&& final(store)@ == old(store)@
                },
                _ => false,
            },
        },
{
    let new_subscriber = match build_new_subscriber(form.name, form.email) {
        Ok(s) => s,
        Err(MalformedInput::InvalidName { name }) => {
            return Err(NewsletterError::ValidationError(name));
        },
        Err(MalformedInput::InvalidEmail { email }) => {
            let mut msg: Vec<char> = Vec::new();
            push_chars(&mut msg, "Invalid email: ");
            push_chars(&mut msg, email.as_str());
            return Err(NewsletterError::ValidationError(chars_to_string(msg)));
        },
    };
    let inserted = store.subscribe_transaction(
        subscriber_id,
        new_subscriber.email.as_str(),
        new_subscriber.name.as_str(),
        subscribed_at,
        subscription_token,
    );
    if inserted.is_err() {
        return Err(
            NewsletterError::UnexpectedError("Failed to insert new subscriber".to_owned()),
        );
    }
    let link = confirmation_link(app_base_url, subscription_token);
    Ok(confirmation_email(new_subscriber, link.as_str()))
}

} // verus!

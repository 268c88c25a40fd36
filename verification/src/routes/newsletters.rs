//! The newsletter-send route: authenticate the operator's Basic credentials,
//! then plan one delivery per confirmed subscriber whose stored email still
//! validates. The caller sends each planned email; a per-recipient failure
//! is skipped and never fails the request.

use vstd::prelude::*;

use crate::domain::subscriber_email::is_valid_email;
use crate::domain::subscriber_email::SubscriberEmail;
use crate::email_client::OutgoingEmail;
use crate::email_client::OutgoingEmailModel;
use crate::routes::errors::NewsletterError;
use crate::store::confirmed_emails_of;
use crate::store::find_user;
use crate::store::Store;
use crate::store::StoredUser;
use crate::store::StoredUserModel;
use crate::store::SubscriberRowModel;
use crate::text::find_char;
use crate::text::find_first;
use crate::text::lemma_find_char_properties;

verus! {

/// The newsletter to broadcast.
pub struct Article {
    pub title: String,
    pub content: ArticleContent,
}

/// The two alternative bodies of an article.
pub struct ArticleContent {
    pub text: String,
    pub html: String,
}

/// Username and password taken from the `Authorization` header.
pub struct Credentials {
    pub username: String,
    pub password: String,
}

/// What `base64::decode` yields on a string — `None` where the input is not
/// valid standard base64. The result depends on the input alone.
pub uninterp spec fn base64_decode_of(s: Seq<char>) -> Option<Seq<u8>>;

/// Relies on `base64::decode` (standard alphabet, padded): decoding is a
/// pure function of the input and fails exactly on malformed input.
#[verifier::external_body]
fn base64_decode(s: &str) -> (r: Option<Vec<u8>>)
    ensures
        r is Some <==> base64_decode_of(s@) is Some,
        r matches Some(b) ==> base64_decode_of(s@) == Some(b@),
{
    base64::decode(s).ok()
}

/// Relies on `String::from_utf8` (std): it succeeds exactly on valid UTF-8
/// and yields the decoded characters, in the sense of vstd's UTF-8 model.
#[verifier::external_body]
fn utf8_to_string(bytes: Vec<u8>) -> (r: Option<String>)
    ensures
        r is Some <==> vstd::utf8::valid_utf8(bytes@),
        r matches Some(s) ==> s@ == vstd::utf8::decode_utf8(bytes@),
{
    String::from_utf8(bytes).ok()
}

/// Whether a string parses as a PHC-format password hash; a pure function of
/// the string.
pub uninterp spec fn is_phc_string(s: Seq<char>) -> bool;

/// Whether this password matches this PHC hash; a pure function of the two.
pub uninterp spec fn argon2_matches(password: Seq<char>, phc: Seq<char>) -> bool;

/// Outcome of checking a password against a stored PHC string.
pub enum PasswordCheck {
    BadFormat,
    Mismatch,
    Match,
}

/// Relies on `argon2::PasswordHash::new` — parsing a PHC string is a pure
/// function of it — and on `Argon2::verify_password` with default parameters
/// — whether a password matches a parsed hash is a pure function of password
/// and hash string.
#[verifier::external_body]
fn check_password(password: &str, phc: &str) -> (r: PasswordCheck)
    ensures
        r is BadFormat <==> !is_phc_string(phc@),
        is_phc_string(phc@) ==> ((r is Match) <==> argon2_matches(password@, phc@)),
{
    match argon2::PasswordHash::new(phc) {
        Ok(hash) => {
            let argon2 = argon2::Argon2::default();
            match argon2::PasswordVerifier::verify_password(&argon2, password.as_bytes(), &hash) {
                Ok(()) => PasswordCheck::Match,
                Err(_) => PasswordCheck::Mismatch,
            }
        },
        Err(_) => PasswordCheck::BadFormat,
    }
}

/// The base64 payload of a Basic authorization header value: everything
/// after the scheme prefix.
pub open spec fn spec_basic_payload(h: Seq<char>) -> Option<Seq<char>> {
    if h.len() >= 6 && h.subrange(0, 6) == "Basic "@ {
        Some(h.subrange(6, h.len() as int))
    } else {
        None
    }
}

/// Username and password as the decoded credentials split: the username is
/// everything before the first colon, the password everything between the
/// first and the second colon (to the end when there is no second). With no
/// colon at all the password is missing.
pub open spec fn spec_split_credentials(s: Seq<char>) -> Option<(Seq<char>, Seq<char>)> {
    match find_char(s, ':') {
        None => None,
        Some(i) => {
            let user = s.subrange(0, i);
            let rest = s.subrange(i + 1, s.len() as int);
            match find_char(rest, ':') {
                None => Some((user, rest)),
                Some(j) => Some((user, rest.subrange(0, j))),
            }
        },
    }
}

/// The whole credential pipeline: header present, `Basic ` scheme, valid
/// base64, valid UTF-8, and a colon to split at.
pub open spec fn spec_get_credentials(header: Option<Seq<char>>) -> Option<(Seq<char>, Seq<char>)> {
    match header {
        None => None,
        Some(h) => match spec_basic_payload(h) {
            None => None,
            Some(p) => match base64_decode_of(p) {
                None => None,
                Some(bytes) => if vstd::utf8::valid_utf8(bytes) {
                    spec_split_credentials(vstd::utf8::decode_utf8(bytes))
                } else {
                    None
                },
            },
        },
    }
}

/// Which step of the credential pipeline failed, as the response message.
pub open spec fn spec_credentials_error(header: Option<Seq<char>>) -> Seq<char> {
    match header {
        None => "Missing `Authorization` header"@,
        Some(h) => match spec_basic_payload(h) {
            None => "Authorization scheme is not Basic"@,
            Some(p) => match base64_decode_of(p) {
                None => "Credentials cannot be base64 decoded"@,
                Some(bytes) => if !vstd::utf8::valid_utf8(bytes) {
                    "Invalid credentials: not UTF8 chars"@
                } else {
                    "Invalid credentials: missing password"@
                },
            },
        },
    }
}

/// Strips the `Basic ` scheme prefix.
fn strip_basic_prefix<'a>(h: &'a str) -> (r: Option<&'a str>)
    ensures
        match r {
            Some(p) => spec_basic_payload(h@) == Some(p@),
            None => spec_basic_payload(h@) is None,
        },
{
    let n = h.unicode_len();
    if n < 6 {
        return None;
    }
    let scheme_matches = h.get_char(0) == 'B' && h.get_char(1) == 'a' && h.get_char(2) == 's'
        && h.get_char(3) == 'i' && h.get_char(4) == 'c' && h.get_char(5) == ' ';
    proof {
        reveal_strlit("Basic ");
        if scheme_matches {
            assert(h@.subrange(0, 6) =~= "Basic "@);
        } else {
            assert(h@.subrange(0, 6)[0] == h@[0]);
            assert(h@.subrange(0, 6)[1] == h@[1]);
            assert(h@.subrange(0, 6)[2] == h@[2]);
            assert(h@.subrange(0, 6)[3] == h@[3]);
            assert(h@.subrange(0, 6)[4] == h@[4]);
            assert(h@.subrange(0, 6)[5] == h@[5]);
            assert(h@.subrange(0, 6) != "Basic "@);
        }
    }
    if scheme_matches {
        Some(h.substring_char(6, n))
    } else {
        None
    }
}

/// Splits decoded credentials at the first and second colon.
fn split_credentials(decoded: &str) -> (r: Option<(String, String)>)
    ensures
        match r {
            Some(c) => spec_split_credentials(decoded@) == Some((c.0@, c.1@)),
            None => spec_split_credentials(decoded@) is None,
        },
{
    let n = decoded.unicode_len();
    match find_first(decoded, ':') {
        None => None,
        Some(i) => {
            proof {
                lemma_find_char_properties(decoded@, ':');
            }
            let username = decoded.substring_char(0, i).to_owned();
            let rest = decoded.substring_char(i + 1, n);
            let password = match find_first(rest, ':') {
                None => rest.to_owned(),
                Some(j) => {
                    proof {
                        lemma_find_char_properties(rest@, ':');
                    }
                    rest.substring_char(0, j).to_owned()
                },
            };
            Some((username, password))
        },
    }
}

/// Reads the operator credentials from the `Authorization` header value:
/// requires the `Basic` scheme, base64-decodes the payload, requires UTF-8,
/// and splits username from password. Fails with the exact message of the
/// first step that goes wrong; every failure is an authentication error.
pub fn get_credentials(authorization: Option<&str>) -> (r: Result<Credentials, NewsletterError>)
    ensures
        ({
            let header = match authorization {
                Some(s) => Some(s@),
                None => None,
            };
            match r {
                Ok(c) => spec_get_credentials(header) == Some((c.username@, c.password@)),
                Err(e) => {
                    &&& spec_get_credentials(header) is None
                    &&& (e matches NewsletterError::AuthError(m) && m@ == spec_credentials_error(
                        header,
                    ))
                },
            }
        }),
{
    let header = match authorization {
        Some(h) => h,
        None => {
            return Err(
                NewsletterError::AuthError("Missing `Authorization` header".to_owned()),
            );
        },
    };
    let payload = match strip_basic_prefix(header) {
        Some(p) => p,
        None => {
            return Err(
                NewsletterError::AuthError("Authorization scheme is not Basic".to_owned()),
            );
        },
    };
    let bytes = match base64_decode(payload) {
        Some(b) => b,
        None => {
            return Err(
                NewsletterError::AuthError("Credentials cannot be base64 decoded".to_owned()),
            );
        },
    };
    let decoded = match utf8_to_string(bytes) {
        Some(s) => s,
        None => {
            return Err(
                NewsletterError::AuthError("Invalid credentials: not UTF8 chars".to_owned()),
            );
        },
    };
    match split_credentials(decoded.as_str()) {
        Some((username, password)) => Ok(Credentials { username, password }),
        None => Err(
            NewsletterError::AuthError("Invalid credentials: missing password".to_owned()),
        ),
    }
}

/// The PHC string verified when the username is unknown, so that the hashing
/// cost is paid either way and response timing does not reveal whether a
/// username exists.
pub open spec fn spec_fallback_phc() -> Seq<char> {
    "$argon2id$v=19$m=15000,t=2,p=1$gZiV/M1gPc22ElAH/Jh1Hw$CWOrkoo7oJBQ/iyh7uJ0LO2aLEfrHwTWllSAxT0zRno"@
}

fn fallback_phc() -> (r: &'static str)
    ensures
        r@ == spec_fallback_phc(),
{
    "$argon2id$v=19$m=15000,t=2,p=1$gZiV/M1gPc22ElAH/Jh1Hw$CWOrkoo7oJBQ/iyh7uJ0LO2aLEfrHwTWllSAxT0zRno"
}

/// The PHC string a credential check verifies against: the user's stored one
/// where the username is known, the fallback one otherwise.
pub open spec fn spec_phc_for(user: Option<StoredUser>) -> Seq<char> {
    match user {
        Some(u) => u.phc_password@,
        None => spec_fallback_phc(),
    }
}

/// The id a successful check yields: the user's, or the all-zero id on the
/// fallback path.
pub open spec fn spec_id_for(user: Option<StoredUser>) -> u128 {
    match user {
        Some(u) => u.id,
        None => 0u128,
    }
}

/// Verifies the password against the stored hash of the looked-up user, or
/// against the fallback hash when the lookup found nothing. Success yields
/// the authenticated user id; a format failure and a mismatch each carry
/// their message, and both are authentication errors.
pub fn validate_credentials(credentials: Credentials, user: Option<StoredUser>) -> (r: Result<
    u128,
    NewsletterError,
>)
    ensures
        ({
            let phc = spec_phc_for(user);
            match r {
                Ok(id) => {
                    &&& is_phc_string(phc)
                    &&& argon2_matches(credentials.password@, phc)
                    &&& id == spec_id_for(user)
                },
                Err(e) => {
                    &&& !(is_phc_string(phc) && argon2_matches(credentials.password@, phc))
                    &&& (e matches NewsletterError::AuthError(m) && m@ == (if !is_phc_string(phc) {
                        "Invalid password format: not PHC format"@
                    } else {
                        "Wrong password"@
                    }))
                },
            }
        }),
{
    let (phc, id) = match user {
        Some(u) => (u.phc_password, u.id),
        None => (fallback_phc().to_owned(), 0u128),
    };
    match check_password(credentials.password.as_str(), phc.as_str()) {
        PasswordCheck::Match => Ok(id),
        PasswordCheck::Mismatch => Err(NewsletterError::AuthError("Wrong password".to_owned())),
        PasswordCheck::BadFormat => Err(
            NewsletterError::AuthError("Invalid password format: not PHC format".to_owned()),
        ),
    }
}

/// The deliveries planned for a list of stored subscriber emails: one per
/// email that still validates, in order, each carrying the article's title
/// as subject and its two bodies.
pub open spec fn spec_deliveries(
    emails: Seq<Seq<char>>,
    subject: Seq<char>,
    html: Seq<char>,
    text: Seq<char>,
) -> Seq<OutgoingEmailModel>
    decreases emails.len(),
{
    if emails.len() == 0 {
        Seq::empty()
    } else {
        let front = spec_deliveries(emails.drop_last(), subject, html, text);
        if is_valid_email(emails.last()) {
            front.push(
                OutgoingEmailModel {
                    recipient: emails.last(),
                    subject,
                    html_body: html,
                    text_body: text,
                },
            )
        } else {
            front
        }
    }
}

/// Plans the deliveries for an article: re-validates every stored email and
/// skips the ones that no longer parse.
pub fn plan_deliveries(subscriber_emails: Vec<String>, article: &Article) -> (r: Vec<
    OutgoingEmail,
>)
    ensures
        r@.map_values(|e: OutgoingEmail| e@) == spec_deliveries(
            subscriber_emails@.map_values(|s: String| s@),
            article.title@,
            article.content.html@,
            article.content.text@,
        ),
{
    let ghost all = subscriber_emails@.map_values(|s: String| s@);
    let mut out: Vec<OutgoingEmail> = Vec::new();
    let mut i: usize = 0;
    let n = subscriber_emails.len();
    while i < n
        invariant
            i <= n,
            n == subscriber_emails@.len(),
            all == subscriber_emails@.map_values(|s: String| s@),
            out@.map_values(|e: OutgoingEmail| e@) == spec_deliveries(
                all.take(i as int),
                article.title@,
                article.content.html@,
                article.content.text@,
            ),
        decreases n - i,
    {
        let ghost done = all.take(i as int);
        let email = subscriber_emails[i].clone();
        match SubscriberEmail::parse(email) {
            Ok(recipient) => {
                let delivery = OutgoingEmail {
                    recipient,
                    subject: article.title.clone(),
                    html_body: article.content.html.clone(),
                    text_body: article.content.text.clone(),
                };
                out.push(delivery);
            },
            Err(_) => {},
        }
        proof {
            let next = all.take(i + 1 as int);
            assert(next.drop_last() =~= done);
            assert(next.last() == all[i as int]);
            assert(out@.map_values(|e: OutgoingEmail| e@) =~= spec_deliveries(
                next,
                article.title@,
                article.content.html@,
                article.content.text@,
            ));
        }
        i = i + 1;
    }
    proof {
        assert(all.take(n as int) =~= all);
    }
    out
}

/// Whether this header authenticates against these user rows: the
/// credentials parse, and the password matches the stored hash of the named
/// user — or, for an unknown username, the fallback hash.
pub open spec fn spec_authorized(
    users: Seq<StoredUserModel>,
    header: Option<Seq<char>>,
) -> bool {
    match spec_get_credentials(header) {
        None => false,
        Some(creds) => {
            let phc = match find_user(users, creds.0) {
                Some(u) => u.phc_password,
                None => spec_fallback_phc(),
            };
            is_phc_string(phc) && argon2_matches(creds.1, phc)
        },
    }
}

/// Handles a newsletter-send request against the store: reads and verifies
/// the Basic credentials (any failure is an authentication error carrying
/// the step's message), then plans one delivery per confirmed subscriber
/// whose stored email still validates. It succeeds exactly when the header
/// authenticates. The caller sends the planned emails and answers success
/// once each was attempted, whatever single deliveries did.
pub fn newsletters(store: &Store, authorization: Option<&str>, article: &Article) -> (r: Result<
    Vec<OutgoingEmail>,
    NewsletterError,
>)
    ensures
        ({
            let header = match authorization {
                Some(s) => Some(s@),
                None => None,
            };
            match r {
                Ok(deliveries) => {
                    &&& spec_authorized(store@.users, header)
                    &&& deliveries@.map_values(|e: OutgoingEmail| e@) == spec_deliveries(
                        confirmed_emails_of(store@.subscriptions),
                        article.title@,
                        article.content.html@,
                        article.content.text@,
                    )
                },
                Err(e) => {
                    &&& !spec_authorized(store@.users, header)
                    &&& e matches NewsletterError::AuthError(_)
                },
            }
        }),
{
    let credentials = match get_credentials(authorization) {
        Ok(c) => c,
        Err(e) => {
            return Err(e);
        },
    };
    let user = store.lookup_user(credentials.username.as_str());
    let _authenticated_id = match validate_credentials(credentials, user) {
        Ok(id) => id,
        Err(e) => {
            return Err(e);
        },
    };
    let confirmed = store.confirmed_emails();
    Ok(plan_deliveries(confirmed, article))
}

/// The challenge header answered with every authentication failure.
pub fn www_authenticate() -> (r: (String, String))
    ensures
        r.0@ == "WWW-Authenticate"@,
        r.1@ == "Basic realm=\"publish\""@,
{
    ("WWW-Authenticate".to_owned(), "Basic realm=\"publish\"".to_owned())
}

/// Law (pending subscribers receive nothing): where no subscriber is
/// confirmed, no delivery is planned.
pub proof fn lemma_pending_only_no_deliveries(
    rows: Seq<SubscriberRowModel>,
    subject: Seq<char>,
    html: Seq<char>,
    text: Seq<char>,
)
    requires
        forall|i: int| 0 <= i < rows.len() ==> !((#[trigger] rows[i]).status is Confirmed),
    ensures
        confirmed_emails_of(rows) == Seq::<Seq<char>>::empty(),
        spec_deliveries(confirmed_emails_of(rows), subject, html, text) == Seq::<
            OutgoingEmailModel,
        >::empty(),
    decreases rows.len(),
{
    if rows.len() > 0 {
        lemma_pending_only_no_deliveries(rows.drop_last(), subject, html, text);
    }
}

/// Law (each confirmed subscriber is delivered to exactly once): where every
/// email in the list validates, the planned deliveries line up with the list
/// one for one, in order, all carrying the article's subject and bodies.
pub proof fn lemma_deliveries_cover_valid_emails(
    emails: Seq<Seq<char>>,
    subject: Seq<char>,
    html: Seq<char>,
    text: Seq<char>,
)
    requires
        forall|i: int| 0 <= i < emails.len() ==> is_valid_email(#[trigger] emails[i]),
    ensures
        spec_deliveries(emails, subject, html, text).len() == emails.len(),
        forall|i: int|
            0 <= i < emails.len() ==> (#[trigger] spec_deliveries(emails, subject, html, text)[i])
                == (OutgoingEmailModel {
                recipient: emails[i],
                subject,
                html_body: html,
                text_body: text,
            }),
    decreases emails.len(),
{
    if emails.len() > 0 {
        lemma_deliveries_cover_valid_emails(emails.drop_last(), subject, html, text);
    }
}

} // verus!

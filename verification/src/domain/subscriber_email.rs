//! A subscriber's email address, accepted only when it passes a standard
//! syntactic email check.

use vstd::prelude::*;

use crate::domain::errors::MalformedInput;

verus! {

/// Whether a string is a syntactically valid email address per the HTML5
/// email grammar; it depends on the characters alone.
pub uninterp spec fn is_valid_email(s: Seq<char>) -> bool;

/// Relies on `validator::validate_email`: a syntactic check that is a pure
/// function of the string. Its source returns `false` outright for the empty
/// string and for any string without a `'@'`.
#[verifier::external_body]
fn email_is_valid(s: &str) -> (r: bool)
    ensures
        r == is_valid_email(s@),
        r ==> s@.len() > 0,
        r ==> exists|i: int| 0 <= i < s@.len() && s@[i] == '@',
{
    validator::validate_email(s)
}

/// A validated email address. The wrapped string is exactly the accepted
/// input, untouched.
#[derive(Clone, Debug)]
pub struct SubscriberEmail(String);

impl View for SubscriberEmail {
    type V = Seq<char>;

    closed spec fn view(&self) -> Seq<char> {
        self.0@
    }
}

impl SubscriberEmail {
    /// Accepts exactly the syntactically valid addresses and wraps them
    /// unchanged; everything else comes back as `InvalidEmail` carrying the
    /// input. A string without a `'@'` is always refused.
    pub fn parse(email: String) -> (r: Result<SubscriberEmail, MalformedInput>)
        ensures
            match r {
                Ok(a) => is_valid_email(email@) && a@ == email@,
                Err(e) => !is_valid_email(email@) && (e matches MalformedInput::InvalidEmail {
                    email: rejected,
                } && rejected@ == email@),
            },
            (forall|i: int| 0 <= i < email@.len() ==> email@[i] != '@') ==> r is Err,
    {
        if email_is_valid(email.as_str()) {
            Ok(SubscriberEmail(email))
        } else {
            Err(MalformedInput::InvalidEmail { email })
        }
    }

    /// Read-only access to the wrapped string.
    pub fn as_str(&self) -> (r: &str)
        ensures
            r@ == self@,
    {
        self.0.as_str()
    }
}

} // verus!

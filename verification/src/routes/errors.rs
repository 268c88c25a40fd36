//! Error taxonomy of the route handlers, its mapping to HTTP status codes,
//! and the texts of the responses and log lines.

use vstd::prelude::*;

use crate::email_client::request::json_string;
use crate::email_client::request::push_json_string;
use crate::text::chars_to_string;
use crate::text::push_chars;

verus! {

/// Everything a route handler can fail with. Each variant carries the text
/// used for the response body or the log line.
#[derive(Debug)]
pub enum NewsletterError {
    /// Malformed form input (name or email rejected): 400.
    ValidationError(String),
    /// The confirmation token is not stored: 404. Carries the token.
    MissingTokenError(String),
    /// Missing or wrong credentials on the newsletter endpoint: 401.
    AuthError(String),
    /// Database or email-provider failure: 500.
    UnexpectedError(String),
}

impl NewsletterError {
    /// The HTTP status code each error maps to.
    pub open spec fn spec_status_code(&self) -> u16 {
        match self {
            NewsletterError::ValidationError(_) => 400u16,
            NewsletterError::UnexpectedError(_) => 500u16,
            NewsletterError::MissingTokenError(_) => 404u16,
            NewsletterError::AuthError(_) => 401u16,
        }
    }

    /// Status-code mapping as a pure function of the variant.
    pub fn status_code(&self) -> (code: u16)
        ensures
            code == self.spec_status_code(),
    {
        match self {
            NewsletterError::ValidationError(_) => 400,
            NewsletterError::UnexpectedError(_) => 500,
            NewsletterError::MissingTokenError(_) => 404,
            NewsletterError::AuthError(_) => 401,
        }
    }

    /// The text each error is logged with.
    pub open spec fn spec_message(&self) -> Seq<char> {
        match self {
            NewsletterError::ValidationError(m) => "Invalid data: "@ + m@,
            NewsletterError::MissingTokenError(m) => "Confirmation failed for missing token: "@
                + m@,
            NewsletterError::AuthError(m) => "Authentication Error: "@ + m@,
            NewsletterError::UnexpectedError(m) => "Unexpected internal error: "@ + m@,
        }
    }

    /// Renders the log text of the error.
    pub fn message(&self) -> (r: String)
        ensures
            r@ == self.spec_message(),
    {
        let mut out: Vec<char> = Vec::new();
        match self {
            NewsletterError::ValidationError(m) => {
                push_chars(&mut out, "Invalid data: ");
                push_chars(&mut out, m.as_str());
            },
            NewsletterError::MissingTokenError(m) => {
                push_chars(&mut out, "Confirmation failed for missing token: ");
                push_chars(&mut out, m.as_str());
            },
            NewsletterError::AuthError(m) => {
                push_chars(&mut out, "Authentication Error: ");
                push_chars(&mut out, m.as_str());
            },
            NewsletterError::UnexpectedError(m) => {
                push_chars(&mut out, "Unexpected internal error: ");
                push_chars(&mut out, m.as_str());
            },
        }
        proof {
            assert(out@ =~= self.spec_message());
        }
        chars_to_string(out)
    }

    /// The response body each error answers with: the rejected input as a
    /// JSON string for a validation error, a JSON-encoded sentence naming
    /// the token for a missing token, and an empty body otherwise.
    pub open spec fn spec_response_body(&self) -> Seq<char> {
        match self {
            NewsletterError::ValidationError(m) => json_string(m@),
            NewsletterError::MissingTokenError(m) => json_string(
                "Token: "@ + m@ + " not found"@,
            ),
            NewsletterError::AuthError(_) => Seq::empty(),
            NewsletterError::UnexpectedError(_) => Seq::empty(),
        }
    }

    /// Renders the response body of the error.
    pub fn response_body(&self) -> (r: String)
        ensures
            r@ == self.spec_response_body(),
    {
        let mut out: Vec<char> = Vec::new();
        match self {
            NewsletterError::ValidationError(m) => {
                push_json_string(&mut out, m.as_str());
            },
            NewsletterError::MissingTokenError(m) => {
                let mut sentence: Vec<char> = Vec::new();
                push_chars(&mut sentence, "Token: ");
                push_chars(&mut sentence, m.as_str());
                push_chars(&mut sentence, " not found");
                let sentence_string = chars_to_string(sentence);
                push_json_string(&mut out, sentence_string.as_str());
                proof {
                    assert("Token: "@ + m@ + " not found"@ =~= sentence_string@);
                }
            },
            NewsletterError::AuthError(_) => {},
            NewsletterError::UnexpectedError(_) => {},
        }
        proof {
            assert(out@ =~= self.spec_response_body());
        }
        chars_to_string(out)
    }
}

} // verus!

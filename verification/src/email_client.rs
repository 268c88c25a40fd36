//! What the email-sending client is asked to send, and the exact
//! provider-specific JSON payload for it. The HTTP delivery itself is done
//! by the process around the library.

pub mod request;

pub use request::EmailRequest;
pub use request::From;
pub use request::Message;
pub use request::To;

use vstd::prelude::*;

use crate::domain::SubscriberEmail;

verus! {

/// One email the client is asked to deliver: a validated recipient, a
/// subject line, and the two alternative bodies.
#[derive(Debug)]
pub struct OutgoingEmail {
    pub recipient: SubscriberEmail,
    pub subject: String,
    pub html_body: String,
    pub text_body: String,
}

/// Mathematical image of an outgoing email.
#[verifier::ext_equal]
pub ghost struct OutgoingEmailModel {
    pub recipient: Seq<char>,
    pub subject: Seq<char>,
    pub html_body: Seq<char>,
    pub text_body: Seq<char>,
}

impl View for OutgoingEmail {
    type V = OutgoingEmailModel;

    open spec fn view(&self) -> OutgoingEmailModel {
        OutgoingEmailModel {
            recipient: self.recipient@,
            subject: self.subject@,
            html_body: self.html_body@,
            text_body: self.text_body@,
        }
    }
}

} // verus!

//! The pairing of a validated name and email built from raw form input.

use vstd::prelude::*;

use crate::domain::errors::MalformedInput;
use crate::domain::subscriber_email::SubscriberEmail;
use crate::domain::subscriber_name::SubscriberName;
use crate::domain::subscriber_email::is_valid_email;

verus! {

/// A subscription request whose two fields both passed validation.
#[derive(Debug)]
pub struct NewSubscriber {
    pub name: SubscriberName,
    pub email: SubscriberEmail,
}

/// Validates the two form fields, name first: the result is `Ok` exactly
/// when both are accepted, and the error names the first field refused.
pub fn build_new_subscriber(name: String, email: String) -> (r: Result<
    NewSubscriber,
    MalformedInput,
>)
    ensures
        match r {
            Ok(s) => {
                &&& SubscriberName::spec_valid(name@)
                &&& is_valid_email(email@)
                &&& s.name@ == name@
                &&& s.email@ == email@
            },
            Err(e) => match e {
                MalformedInput::InvalidName { name: rejected } => {
                    &&& !SubscriberName::spec_valid(name@)
                    &&& rejected@ == name@
                },
                MalformedInput::InvalidEmail { email: rejected } => {
                    &&& SubscriberName::spec_valid(name@)
                    &&& !is_valid_email(email@)
                    &&& rejected@ == email@
                },
            },
        },
{
    let parsed_name = match SubscriberName::parse(name) {
        Ok(n) => n,
        Err(e) => {
            return Err(e);
        },
    };
    let parsed_email = match SubscriberEmail::parse(email) {
        Ok(a) => a,
        Err(e) => {
            return Err(e);
        },
    };
    Ok(NewSubscriber { name: parsed_name, email: parsed_email })
}

} // verus!

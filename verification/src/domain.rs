//! Validated domain values: subscriber names and email addresses, and the
//! pairing of the two that a subscription request carries.

pub mod errors;
pub mod new_subscriber;
pub mod subscriber_email;
pub mod subscriber_name;

pub use errors::MalformedInput;
pub use new_subscriber::NewSubscriber;
pub use subscriber_email::SubscriberEmail;
pub use subscriber_name::SubscriberName;

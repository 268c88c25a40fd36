//! Pure request-handling logic of the four HTTP routes.

pub mod errors;
pub mod newsletters;
pub mod subscriptions;
pub mod subscriptions_confirm;

pub use errors::NewsletterError;
pub use newsletters::newsletters;
pub use subscriptions::subscribe;
pub use subscriptions_confirm::confirm;

//! Core logic of a newsletter subscription service: validated subscriber
//! names and emails, subscription tokens, the pending-to-confirmed
//! subscriber lifecycle, HTTP Basic credential handling, and the payloads
//! sent to the transactional email provider.

pub mod configuration;
pub mod domain;
pub mod email_client;
pub mod routes;
pub mod store;
pub mod text;

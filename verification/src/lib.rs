//! Newsletter subscription workflow: validated identity values, random
//! confirmation tokens, transactional subscriber/token persistence, and
//! the confirmation email built for an external dispatch provider.

pub mod configuration;
pub mod domain;
pub mod email_client;
pub mod form;
pub mod store;
pub mod strutil;
pub mod subscriptions;
pub mod token;

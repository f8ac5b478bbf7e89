//! Verified core of an email-newsletter service: subscriber input validation,
//! the subscription and confirmation state machine over the subscriber store,
//! confirmation-token generation, credential verification for the publishing
//! endpoint, and newsletter dispatch planning.

pub mod domain;
pub mod token;
pub mod store;
pub mod auth;
pub mod email;
pub mod newsletter;
pub mod configuration;

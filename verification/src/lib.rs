//! Validated subscriber identities and the outbound email dispatch rules of a
//! newsletter service.

pub mod configuration;
pub mod domain;
pub mod email_client;
pub mod json;
pub mod secret;
pub mod startup;
pub mod text;
pub mod timeout;

//! Configuration and request-validation logic of a newsletter subscription service.

pub mod configuration;
pub mod secret;
pub mod routes;

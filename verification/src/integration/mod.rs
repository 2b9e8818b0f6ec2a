//! Integrations with external services: connectors and their operations,
//! credentials, rate limiting, and their errors.

pub mod rate_limit;
pub mod connector;
pub mod credential;
pub mod error;

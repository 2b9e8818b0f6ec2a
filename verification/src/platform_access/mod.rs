//! Platform access: OIDC configuration, roles derived from OIDC groups,
//! users, sessions and authentication results.

pub mod role;
pub mod oidc;
pub mod session;
pub mod user;
pub mod auth;
pub mod error;

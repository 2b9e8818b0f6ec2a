//! Authorization with a relationship-based (SpiceDB) service: the resources,
//! subjects, relationships and permissions it checks, its errors, and the
//! decision taken on a permission check.

pub mod types;
pub mod error;
pub mod request;

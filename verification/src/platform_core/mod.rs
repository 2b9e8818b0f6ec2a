//! Core domain types shared across the platform: identifiers and error kinds.

pub mod id;
pub mod error;

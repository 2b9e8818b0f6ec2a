//! Small building blocks shared by the whole library: text handling,
//! wall-clock time, ULID encoding and a JSON value model.

pub mod text;
pub mod clock;
pub mod ulid_text;
pub mod json;

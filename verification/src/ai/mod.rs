//! AI primitives: single-shot LLM calls and the coordinate loop's records,
//! with their backends' request and response shapes, errors and feedback.

pub mod backend;
pub mod llm_call;
pub mod coordinate;
pub mod feedback;
pub mod error;
pub mod prompt;

//! Request-transformation core of an emoji-driven facial-expression editing
//! service: image validation, daily quota decisions, the upstream provider's
//! request and response handling with bounded retry, the error taxonomy, and
//! the request lifecycle as a state machine driven by the caller.

pub mod text;
pub mod error;
pub mod models;
pub mod validate;
pub mod quota;
pub mod gemini;
pub mod flow;
pub mod codec;
pub mod cli;

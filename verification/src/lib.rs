//! Input encoding and proof orchestration for the Anon Aadhaar disclosure circuit.

pub mod artifact;
pub mod error;
pub mod field;
pub mod inputs;
pub mod proving;
pub mod schema;
pub mod verifying;
pub mod witness;

//! Prompted console input: a reusable configuration (prompt, acceptance
//! check, rejection message) and the decision made on each line typed.
//! The terminal itself is driven by the caller; this crate decides what
//! each line means.
pub mod validator;
pub mod text;
pub mod input;

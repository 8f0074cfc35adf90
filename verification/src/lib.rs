//! Callable values with explicit capture modes.
//!
//! An anonymous function that captures variables from its enclosing scope can
//! be written out as a named struct: the captured variables become fields,
//! each held by shared reference, by exclusive access, or by ownership, and
//! invocation becomes a method. This crate models the four canonical capture
//! patterns as explicit block types, plus a capture-free block, all invoked
//! through one three-mode protocol (consume, mutate, read) declared in
//! [`protocol`].

pub mod capture_message;
pub mod consume_capture;
pub mod move_capture;
pub mod non_capture;
pub mod protocol;
pub mod return_capture;

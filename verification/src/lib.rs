//! Unconditionally removes a call of a function-like macro.
//!
//! The library works on a plain model of lexical tokens.  An annotated item
//! is read as a macro invocation — a path, a `!`, and a delimited token
//! body — and the body's tokens are handed back exactly as they stood, with
//! the invoked name and its delimiters discarded.  Any other shape is
//! rejected with a position-carrying error.

pub mod shape;
pub mod token;
pub mod unwrap;

pub use unwrap::remove_macro_call;
pub use unwrap::ShapeError;

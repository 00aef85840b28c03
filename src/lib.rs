//! A compiler extension that rewrites a module's syntax tree at three fixed
//! points of the frontend pipeline, and the processor that gives the
//! standard library its assert-message support functions.
pub mod ast;
pub mod assert_message;
pub mod lifecycle;

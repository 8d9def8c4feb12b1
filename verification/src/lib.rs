//! Typed, composable data-access paths.
//!
//! A chain of nodes reads a nested field or derived value out of a root
//! input.  Each node can be evaluated directly against a concrete input or
//! traversed with a generic visitor that extracts a derived result (such as
//! a symbolic path) without inspecting values at runtime.

pub mod expression;
pub mod errors;
pub mod frontend;

//! A symbolic-expression engine.
//!
//! Expressions are immutable trees of nodes: constant and variable
//! leaves, and operator nodes (multiplication, addition, division) that
//! hold shared handles to their children.  Every node supports the same
//! four operations — enumerate its direct arguments, take a one-level
//! partial derivative with respect to an arbitrary node handle, evaluate
//! to a number under the current variable values, and render itself to
//! text with precedence-correct parentheses.

pub mod constant;
pub mod function;
pub mod laws;
pub mod node;
pub mod render;
pub mod variable;

//! A syntax-tree rewriting pass over a small JavaScript/JSX expression tree.
//!
//! The tree model lives in [`ast`]; the traversal engine and its rewrite rule,
//! which replaces the left operand of every strict-equality expression by a
//! fixed identifier, live in [`transform`]. [`laws`] states and proves what
//! holds of the pass as a whole, and [`fixture`] holds the decisions of the
//! golden-file harness that checks it against recorded outputs.

pub mod ast;
pub mod transform;
pub mod laws;
pub mod fixture;

//! Arithmetic expression trees.
//!
//! An [`expr::Expression`] is a finite tree of integer literals, unary
//! negation nodes and binary arithmetic nodes. The library evaluates such a
//! tree to an optional integer (`evaluate`), renders it as a single infix
//! line with structural parenthesization (`render`), and renders it as an
//! indented branch diagram, one node per line (`tree`).

pub mod expr;
pub mod infix;
pub mod laws;
pub mod numfmt;
pub mod treefmt;

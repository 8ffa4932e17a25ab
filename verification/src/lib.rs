//! Middle passes of a front end for a small ML-family language: comment
//! stripping, uniquification of parse-time type placeholders, and
//! Hindley-Milner-style type inference with intentionally shallow
//! unification, over the shared abstract syntax tree.
pub mod dec;
pub mod id;
pub mod typing;
pub mod infer;
pub mod node;
pub mod passes;

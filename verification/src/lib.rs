//! Lazy element-wise arithmetic over fixed-size integer vectors.
//!
//! Chaining eager vector operators (`a + b + c + d`) materializes a fresh
//! vector at every step. This crate instead represents a chain of element-wise
//! additions as an unevaluated expression tree of borrowed operands, and
//! evaluates the whole tree element by element exactly once, directly into a
//! destination vector. The eager vector lives in [`vector`] as the baseline;
//! the lazy core lives in [`lazy`].

pub mod lazy;
pub mod vector;

//! The rewrite-synthesis core of a tool that turns unsafe, pointer-heavy
//! code into safety-preserving equivalents, given a precomputed
//! per-pointer classification: which ownership, multiplicity, nullability
//! and dynamic-ownership discipline each pointer may safely adopt.
//!
//! The walker visits every statement, terminator, expression and
//! addressable-location projection of a function body and decides, per
//! sub-expression, which atomic rewrites apply; the cast synthesizer
//! computes the minimal ordered sequence of safe operations bridging two
//! pointer shapes, or proves that none exists.

pub mod cast;
pub mod ctx;
pub mod ir;
pub mod rewrite;
pub mod shape;
pub mod ty;
pub mod walk;
pub mod zeroize;

//! Verified decision logic of a LinUCB contextual-bandit engine and of its
//! cosine-similarity helpers: input validation in a fixed order, the
//! skip-and-keep-order policy of batch scoring, per-pair tolerance of the batch
//! similarity calls, and the assembly of a symmetric similarity matrix.
//!
//! The scalar arithmetic is supplied by the caller, either as plain flags
//! (`is the denominator finite`) or as closures that compute one entry.
pub mod error;
pub mod score;
pub mod similarity;
pub mod update;

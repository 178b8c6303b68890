//! Rating aggregation and attraction similarity.
//!
//! The crate reconciles raw ratings into daily aggregates (mean, 95th and
//! 99th percentile) and scores how similar two attractions are from their
//! type, their distance and the closeness of their average ratings.

pub mod application;
pub mod decimal;
pub mod errors;
pub mod model;
pub mod time;

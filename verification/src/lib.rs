//! Core of a football match outcome predictor.
//!
//! The pipeline turns two teams' aggregate statistics and recent form into a
//! fixed-order feature vector, hands the vector to an externally trained
//! classifier, derives a discrete predicted outcome with a confidence value,
//! and manages the lifecycle of the resulting prediction record: creation,
//! idempotent retrieval by fixture, and reconciliation once the real result
//! is known.
//!
//! All quantities that the surrounding system treats as fractional (expected
//! goals, possession shares, probabilities) are carried here as fixed-point
//! integers in thousandths ("milliunits"), so every computation is exact and
//! fully specified.

pub mod config;
pub mod errors;
pub mod features;
pub mod fixture_data;
pub mod outcome;
pub mod pipeline;
pub mod prediction;
pub mod probability;
pub mod store;
pub mod team;

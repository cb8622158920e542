//! Conformance checking for CSAF security advisories.
//!
//! - [`csaf_traits`]: the capability interfaces through which a rule reads a
//!   document, whatever schema version it was parsed from, and the models
//!   the contracts speak of.
//! - [`advisory`]: a plain in-memory document that implements them.
//! - [`timestamp`]: timezone-aware points in time, parsed and rendered by
//!   `chrono`.
//! - [`validation`]: the error model, and the runner that drives an ordered
//!   catalogue of rules and reports every violation found.
//! - [`validations`]: the rules; here the one on SSVC timestamps.
//! - [`findings`], [`text`]: what rules share, the first finding of a scan
//!   and the decimal text of an index.

pub mod advisory;
pub mod csaf_traits;
pub mod findings;
pub mod text;
pub mod timestamp;
pub mod validation;
pub mod validations;

//! Reconciliation of two infrastructure dry-run descriptions.
//!
//! The crate parses one tool's line-delimited JSON plan stream into a typed
//! document, normalizes resource identities from both tools' schemas into a
//! common comparison key, and runs a three-pass matching between an expected
//! resource list and the two observed resource sets, producing a coverage
//! report.

pub mod azcli;
pub mod classifier;
pub mod json;
pub mod output_tester;
pub mod reconcile;
pub mod resource;
pub mod strutil;

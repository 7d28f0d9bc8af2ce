//! A multi-signature, timelocked vault with per-asset spending limits,
//! verified with Verus.
//!
//! - [`types`]: addresses, configuration, proposals, actions and their views.
//! - [`errors`]: the vault's error taxonomy.
//! - [`model`]: the vault as a mathematical value and its operations as functions.
//! - [`storage`]: the vault's keyed storage and its typed accessors.
//! - [`contract`]: the vault's operations.
pub mod contract;
pub mod errors;
pub mod laws;
pub mod model;
pub mod storage;
pub mod types;

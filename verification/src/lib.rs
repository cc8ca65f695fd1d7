//! A drop-distribution ledger: time-boxed, capacity-limited free-download
//! offers ("drops") with first-come-first-served claim semantics.
//!
//! The crate models the full lifecycle of a drop — creation with blob
//! storage, claim issuance against a capacity limit, bearer-token download
//! validation, and background expiry/purge sweeps — as verified operations
//! over an in-memory registry, claim ledger and content store.

pub mod content_store;
pub mod errors;
pub mod hashing;
pub mod ids;
pub mod laws;
pub mod ledger;
pub mod listing;
pub mod maintenance;
pub mod models;
pub mod records;
pub mod responses;
pub mod service;
pub mod status;
pub mod sweeps;
pub mod system;
pub mod text;

//! Decision core of an asset ingest pipeline for a geospatial feature store.
//!
//! The crate holds the rules by which objects of an object store are chosen,
//! classified and turned into records of a feature store. It performs no
//! input or output itself: a caller lists, reads and writes, and asks this
//! crate at every step what to do next.

pub mod text;
pub mod time;
pub mod dictionary;
pub mod asset;
pub mod error;
pub mod policy;
pub mod eligibility;
pub mod classify;
pub mod standard;
pub mod proj;
pub mod document;
pub mod feature;
pub mod loader;
pub mod sweep;
pub mod auth;
pub mod initialization;

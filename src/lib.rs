//! A snapshot engine for directory trees: metadata fingerprints,
//! content-addressed snapshot naming with deduplication, copy planning with
//! aggregated failure reports, and verified restore.
use vstd::prelude::*;

pub mod entry;
pub mod fingerprint;
pub mod paths;
pub mod copy;
pub mod text;
pub mod snapshot;
pub mod restore;
pub mod size;
pub mod config;
pub mod dashboard;

verus! {

} // verus!
